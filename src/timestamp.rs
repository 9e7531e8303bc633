use vstd::prelude::*;

verus! {

/// A point in time, counted in microseconds since 1970-01-01T00:00:00 (UTC).
#[derive(Clone, Copy, Debug, PartialEq, Eq, Structural)]
pub struct Timestamp {
    pub micros: i64,
}

impl Timestamp {
    pub fn from_micros(micros: i64) -> (r: Timestamp)
        ensures
            r.micros == micros,
    {
        Timestamp { micros }
    }

    pub fn micros(&self) -> (r: i64)
        ensures
            r == self.micros,
    {
        self.micros
    }

    /// Whether `self` lies at or after `other`.
    pub fn is_not_before(&self, other: &Timestamp) -> (r: bool)
        ensures
            r == (self.micros >= other.micros),
    {
        self.micros >= other.micros
    }
}

} // verus!

use vstd::prelude::*;

use crate::timestamp::Timestamp;
use crate::user::{NewUser, User};

verus! {

/// Why the store refused an insert.
#[derive(Clone, Copy, Debug, PartialEq, Eq, Structural)]
pub enum StoreError {
    /// No connection to the store could be had.
    Connection,
    /// The store refused or failed the statement.
    Query,
    /// Every `id` that an `i32` can hold has been handed out.
    IdsExhausted,
}

/// The largest `id` the table hands out.
pub const MAX_ID: i64 = 2147483647;

/// An in-memory `users` table: rows in insertion order, each with an `id`
/// taken from a sequence that starts at 1 and never repeats.
#[derive(Debug)]
pub struct UserTable {
    rows: Vec<User>,
    next_id: i64,
}

/// Whether no two rows of `rows` share an `id`.
pub open spec fn ids_distinct(rows: Seq<User>) -> bool {
    forall|i: int, j: int| 0 <= i < rows.len() && 0 <= j < rows.len() && i != j ==> rows[i].id
        != rows[j].id
}

/// Whether some row of `rows` has the given `id`.
pub open spec fn has_id(rows: Seq<User>, id: i32) -> bool {
    exists|i: int| 0 <= i < rows.len() && rows[i].id == id
}

/// What a successful insert of `new_user` at time `now` does: `after` is `before`
/// with one row appended, `u`, which carries the request's fields, the next `id`
/// of the sequence, and `now` as its creation time.
pub open spec fn inserted(
    before: UserTable,
    new_user: NewUser,
    now: Timestamp,
    after: UserTable,
    u: User,
) -> bool {
    &&& u.id as int == before.next_id()
    &&& u.name == new_user.name
    &&& u.email == new_user.email
    &&& u.created_at == now
    &&& after.rows() == before.rows().push(u)
    &&& after.next_id() == before.next_id() + 1
}

impl UserTable {
    /// The rows, in insertion order.
    pub closed spec fn rows(&self) -> Seq<User> {
        self.rows@
    }

    /// The `id` that the next insert will hand out.
    pub closed spec fn next_id(&self) -> int {
        self.next_id as int
    }

    /// Every row has an `id` in `1..next_id`, and the ids increase along the rows.
    pub closed spec fn wf(&self) -> bool {
        &&& 1 <= self.next_id <= MAX_ID + 1
        &&& forall|i: int| 0 <= i < self.rows@.len() ==> 1 <= #[trigger] self.rows@[i].id < self.next_id
        &&& forall|i: int, j: int|
            0 <= i < j < self.rows@.len() ==> #[trigger] self.rows@[i].id < #[trigger] self.rows@[j].id
    }

    /// An empty table whose first `id` will be 1.
    pub fn new() -> (r: UserTable)
        ensures
            r.wf(),
            r.rows() == Seq::<User>::empty(),
            r.next_id() == 1,
    {
        UserTable { rows: Vec::new(), next_id: 1 }
    }

    pub fn len(&self) -> (r: usize)
        ensures
            r == self.rows().len(),
    {
        self.rows.len()
    }

    /// All rows, in insertion order.
    pub fn load(&self) -> (r: Vec<User>)
        ensures
            r@ == self.rows(),
    {
        let mut out: Vec<User> = Vec::new();
        let mut i: usize = 0;
        while i < self.rows.len()
            invariant
                i <= self.rows@.len(),
                out@ == self.rows@.subrange(0, i as int),
            decreases self.rows@.len() - i,
        {
            out.push(self.rows[i].clone());
            i = i + 1;
            assert(out@ =~= self.rows@.subrange(0, i as int));
        }
        assert(out@ =~= self.rows@);
        out
    }

    /// Inserts one row for `new_user`, created at `now`, and returns it. Fails,
    /// leaving the table as it was, only when the `id` sequence is used up.
    pub fn insert(&mut self, new_user: NewUser, now: Timestamp) -> (r: Result<User, StoreError>)
        requires
            old(self).wf(),
        ensures
            final(self).wf(),
            old(self).next_id() > MAX_ID ==> r == Err::<User, StoreError>(StoreError::IdsExhausted)
                && *final(self) == *old(self),
            old(self).next_id() <= MAX_ID ==> r is Ok && inserted(
                *old(self),
                new_user,
                now,
                *final(self),
                r->Ok_0,
            ),
    {
        if self.next_id > MAX_ID {
            return Err(StoreError::IdsExhausted);
        }
        let u = User {
            id: self.next_id as i32,
            name: new_user.name,
            email: new_user.email,
            created_at: now,
        };
        self.rows.push(u.clone());
        self.next_id = self.next_id + 1;
        Ok(u)
    }
}

/// In a well-formed table no two rows share an `id`.
pub proof fn lemma_ids_distinct(t: UserTable)
    requires
        t.wf(),
    ensures
        ids_distinct(t.rows()),
{
    assert forall|i: int, j: int|
        0 <= i < t.rows().len() && 0 <= j < t.rows().len() && i != j implies t.rows()[i].id
        != t.rows()[j].id by {
        if i < j {
            assert(t.rows@[i].id < t.rows@[j].id);
        } else {
            assert(t.rows@[j].id < t.rows@[i].id);
        }
    }
}

/// A created user is listed afterwards: the rows after a successful insert hold
/// exactly one row with the new `id`, carrying the request's `name` and `email`;
/// that `id` was held by no row before; and its creation time is not earlier
/// than any instant `start` at or before the insert's clock reading.
pub proof fn lemma_created_user_is_listed(
    before: UserTable,
    new_user: NewUser,
    now: Timestamp,
    start: Timestamp,
    after: UserTable,
    u: User,
)
    requires
        before.wf(),
        inserted(before, new_user, now, after, u),
        start.micros <= now.micros,
    ensures
        !has_id(before.rows(), u.id),
        exists|k: int|
            0 <= k < after.rows().len() && #[trigger] after.rows()[k] == u && after.rows()[k].name
                == new_user.name && after.rows()[k].email == new_user.email
                && after.rows()[k].created_at.micros >= start.micros,
        forall|k: int|
            0 <= k < after.rows().len() && #[trigger] after.rows()[k].id == u.id ==> k
                == before.rows().len(),
{
    let n = before.rows().len() as int;
    assert(after.rows()[n] == u);
    assert forall|k: int|
        0 <= k < after.rows().len() && #[trigger] after.rows()[k].id == u.id implies k == n by {
        if k < n {
            assert(after.rows()[k] == before.rows@[k]);
            assert(before.rows@[k].id < before.next_id);
        }
    }
    if has_id(before.rows(), u.id) {
        let i = choose|i: int| 0 <= i < before.rows().len() && before.rows()[i].id == u.id;
        assert(before.rows@[i].id < before.next_id);
    }
}

/// An insert loses no earlier write: every row present before is still present,
/// at the same position, and the table grows by exactly one row.
pub proof fn lemma_insert_keeps_rows(
    before: UserTable,
    new_user: NewUser,
    now: Timestamp,
    after: UserTable,
    u: User,
)
    requires
        inserted(before, new_user, now, after, u),
    ensures
        after.rows().len() == before.rows().len() + 1,
        forall|k: int| 0 <= k < before.rows().len() ==> #[trigger] after.rows()[k] == before.rows()[k],
{
}

/// Two successful inserts, one after the other, give two different ids, even
/// when both requests carry the same `name` and `email`.
pub proof fn lemma_two_inserts_distinct_ids(
    t0: UserTable,
    a: NewUser,
    now_a: Timestamp,
    t1: UserTable,
    ua: User,
    b: NewUser,
    now_b: Timestamp,
    t2: UserTable,
    ub: User,
)
    requires
        inserted(t0, a, now_a, t1, ua),
        inserted(t1, b, now_b, t2, ub),
    ensures
        ua.id != ub.id,
        t2.rows().len() == t0.rows().len() + 2,
{
}

/// Whether `tables` are the states of a run of successful inserts: insert `i`
/// of request `reqs[i]` at `nows[i]` takes `tables[i]` to `tables[i + 1]` and
/// returns `users[i]`.
pub open spec fn insert_run(
    tables: Seq<UserTable>,
    reqs: Seq<NewUser>,
    nows: Seq<Timestamp>,
    users: Seq<User>,
) -> bool {
    &&& reqs.len() == users.len()
    &&& nows.len() == users.len()
    &&& tables.len() == users.len() + 1
    &&& forall|i: int|
        0 <= i < users.len() ==> inserted(
            #[trigger] tables[i],
            reqs[i],
            nows[i],
            tables[i + 1],
            users[i],
        )
}

proof fn lemma_insert_run_prefix(
    tables: Seq<UserTable>,
    reqs: Seq<NewUser>,
    nows: Seq<Timestamp>,
    users: Seq<User>,
    i: int,
)
    requires
        insert_run(tables, reqs, nows, users),
        0 <= i <= users.len(),
    ensures
        tables[i].next_id() == tables[0].next_id() + i,
        tables[i].rows().len() == tables[0].rows().len() + i,
        forall|k: int| 0 <= k < i ==> #[trigger] users[k].id == tables[0].next_id() + k,
        forall|k: int|
            0 <= k < i ==> #[trigger] tables[i].rows()[tables[0].rows().len() + k] == users[k],
    decreases i,
{
    if i > 0 {
        lemma_insert_run_prefix(tables, reqs, nows, users, i - 1);
        assert(inserted(tables[i - 1], reqs[i - 1], nows[i - 1], tables[i], users[i - 1]));
        let n0 = tables[0].rows().len();
        assert forall|k: int| 0 <= k < i implies #[trigger] tables[i].rows()[n0 + k] == users[k] by {
            if k < i - 1 {
                assert(tables[i].rows()[n0 + k] == tables[i - 1].rows()[n0 + k]);
            }
        }
    }
}

/// A run of successful inserts, however the requests came to be ordered, loses
/// no write and repeats no `id`: each created user stands in the final rows,
/// after the rows that were there before, and the ids of the created users are
/// pairwise distinct.
pub proof fn lemma_insert_run_distinct_ids(
    tables: Seq<UserTable>,
    reqs: Seq<NewUser>,
    nows: Seq<Timestamp>,
    users: Seq<User>,
)
    requires
        insert_run(tables, reqs, nows, users),
    ensures
        ids_distinct(users),
        tables.last().rows().len() == tables[0].rows().len() + users.len(),
        forall|k: int|
            0 <= k < users.len() ==> tables.last().rows()[tables[0].rows().len() + k]
                == #[trigger] users[k],
{
    lemma_insert_run_prefix(tables, reqs, nows, users, users.len() as int);
}

} // verus!

use vstd::prelude::*;

use crate::timestamp::Timestamp;
use crate::user::User;

verus! {

/// One value of a result row, as a relational store hands it back.
#[derive(Debug)]
pub enum Column {
    Int(i64),
    Text(String),
    Time(Timestamp),
    Null,
}

/// Why a row cannot be read as a `User`.
#[derive(Clone, Copy, Debug, PartialEq, Eq, Structural)]
pub enum RowError {
    /// The row does not have one value for each of `id`, `name`, `email`, `created_at`.
    Arity { found: usize },
    /// The value at `index` is not of that column's type (or, for `id`, out of range).
    Mismatch { index: usize },
}

/// The number of columns of the `users` table.
pub const USER_COLUMNS: usize = 4;

/// Whether `c` can stand at position `index` of a `users` row:
/// `id` an integer that fits in `i32`, `name` and `email` text, `created_at` a time.
pub open spec fn column_fits(index: int, c: Column) -> bool {
    if index == 0 {
        c is Int && i32::MIN <= c->Int_0 <= i32::MAX
    } else if index == 1 || index == 2 {
        c is Text
    } else if index == 3 {
        c is Time
    } else {
        false
    }
}

/// The first position of a four-value row whose value does not fit, or 4 if all fit.
pub open spec fn first_misfit(row: Seq<Column>) -> int {
    if !column_fits(0, row[0]) {
        0
    } else if !column_fits(1, row[1]) {
        1
    } else if !column_fits(2, row[2]) {
        2
    } else if !column_fits(3, row[3]) {
        3
    } else {
        4
    }
}

/// The user that a well-typed four-value row describes.
pub open spec fn row_user(row: Seq<Column>, u: User) -> bool {
    &&& u.id as int == row[0]->Int_0
    &&& u.name == row[1]->Text_0
    &&& u.email == row[2]->Text_0
    &&& u.created_at == row[3]->Time_0
}

/// Whether `row` reads as a `User`.
pub open spec fn row_reads(row: Seq<Column>) -> bool {
    row.len() == USER_COLUMNS && first_misfit(row) == 4
}

/// The error reported for a row that does not read as a `User`.
pub open spec fn row_error(row: Seq<Column>) -> RowError {
    if row.len() != USER_COLUMNS {
        RowError::Arity { found: row.len() as usize }
    } else {
        RowError::Mismatch { index: first_misfit(row) as usize }
    }
}

/// Reads a `users` row, laid out as `id, name, email, created_at`, as a `User`.
pub fn user_from_row(row: &Vec<Column>) -> (r: Result<User, RowError>)
    ensures
        row_reads(row@) ==> r is Ok && row_user(row@, r->Ok_0),
        !row_reads(row@) ==> r == Err::<User, RowError>(row_error(row@)),
{
    if row.len() != USER_COLUMNS {
        return Err(RowError::Arity { found: row.len() });
    }
    let id: i32 = match &row[0] {
        Column::Int(v) => {
            if *v < i32::MIN as i64 || *v > i32::MAX as i64 {
                return Err(RowError::Mismatch { index: 0 });
            }
            *v as i32
        },
        _ => {
            return Err(RowError::Mismatch { index: 0 });
        },
    };
    let name = match &row[1] {
        Column::Text(s) => s.clone(),
        _ => {
            return Err(RowError::Mismatch { index: 1 });
        },
    };
    let email = match &row[2] {
        Column::Text(s) => s.clone(),
        _ => {
            return Err(RowError::Mismatch { index: 2 });
        },
    };
    let created_at = match &row[3] {
        Column::Time(t) => *t,
        _ => {
            return Err(RowError::Mismatch { index: 3 });
        },
    };
    Ok(User { id, name, email, created_at })
}

/// Reads every row of a `users` result set, keeping its order. Fails with the
/// error of the first row that does not read, together with that row's position.
pub fn users_from_rows(rows: &Vec<Vec<Column>>) -> (r: Result<Vec<User>, (usize, RowError)>)
    ensures
        r is Ok <==> forall|i: int| 0 <= i < rows@.len() ==> row_reads(#[trigger] rows@[i]@),
        r is Ok ==> r->Ok_0@.len() == rows@.len() && forall|i: int|
            0 <= i < rows@.len() ==> row_user(rows@[i]@, #[trigger] r->Ok_0@[i]),
        r is Err ==> {
            let k = r->Err_0.0 as int;
            &&& 0 <= k < rows@.len()
            &&& !row_reads(rows@[k]@)
            &&& r->Err_0.1 == row_error(rows@[k]@)
            &&& forall|i: int| 0 <= i < k ==> row_reads(#[trigger] rows@[i]@)
        },
{
    let mut out: Vec<User> = Vec::new();
    let mut i: usize = 0;
    while i < rows.len()
        invariant
            i <= rows@.len(),
            out@.len() == i,
            forall|j: int| 0 <= j < i ==> row_reads(#[trigger] rows@[j]@),
            forall|j: int| 0 <= j < i ==> row_user(rows@[j]@, #[trigger] out@[j]),
        decreases rows@.len() - i,
    {
        match user_from_row(&rows[i]) {
            Ok(u) => {
                out.push(u);
            },
            Err(e) => {
                return Err((i, e));
            },
        }
        i = i + 1;
    }
    Ok(out)
}

} // verus!

use vstd::prelude::*;

use crate::row::{row_error, row_reads, row_user, user_from_row, users_from_rows, Column, RowError};
use crate::table::{inserted, StoreError, UserTable, MAX_ID};
use crate::timestamp::Timestamp;
use crate::user::{BodyError, NewUser, User};

verus! {

/// Why a request to the user service failed.
#[derive(Clone, Copy, Debug, PartialEq, Eq, Structural)]
pub enum ServiceError {
    /// The request body lacks a required field.
    Body(BodyError),
    /// The store failed.
    Store(StoreError),
    /// The store answered with a row that does not read as a user.
    Row(RowError),
}

/// The HTTP status for a failed request: 422 for a body that lacks a field,
/// 500 for anything that went wrong behind the service.
pub open spec fn status_of(e: ServiceError) -> u16 {
    match e {
        ServiceError::Body(_) => 422,
        _ => 500,
    }
}

impl ServiceError {
    pub fn status_code(&self) -> (r: u16)
        ensures
            r == status_of(*self),
    {
        match self {
            ServiceError::Body(_) => 422,
            _ => 500,
        }
    }
}

/// Lists every user of `table`, in insertion order; an empty table gives an
/// empty list, not an error.
pub fn get_users(table: &UserTable) -> (r: Vec<User>)
    ensures
        r@ == table.rows(),
        table.rows().len() == 0 ==> r@.len() == 0,
{
    table.load()
}

/// Creates a user in `table` from the fields of a request body, stamped `now`.
/// A body that lacks `name` or `email` is refused and the table is left as it was.
pub fn create_user(
    table: &mut UserTable,
    name: Option<String>,
    email: Option<String>,
    now: Timestamp,
) -> (r: Result<User, ServiceError>)
    requires
        old(table).wf(),
    ensures
        final(table).wf(),
        name.is_none() ==> r == Err::<User, ServiceError>(ServiceError::Body(BodyError::MissingName))
            && *final(table) == *old(table),
        name.is_some() && email.is_none() ==> r == Err::<User, ServiceError>(
            ServiceError::Body(BodyError::MissingEmail),
        ) && *final(table) == *old(table),
        name.is_some() && email.is_some() && old(table).next_id() > MAX_ID ==> r == Err::<
            User,
            ServiceError,
        >(ServiceError::Store(StoreError::IdsExhausted)) && *final(table) == *old(table),
        name.is_some() && email.is_some() && old(table).next_id() <= MAX_ID ==> r is Ok && inserted(
            *old(table),
            (NewUser { name: name->Some_0, email: email->Some_0 }),
            now,
            *final(table),
            r->Ok_0,
        ),
{
    match NewUser::from_fields(name, email) {
        Err(e) => Err(ServiceError::Body(e)),
        Ok(new_user) => match table.insert(new_user, now) {
            Ok(u) => Ok(u),
            Err(e) => Err(ServiceError::Store(e)),
        },
    }
}

/// The result of listing users, given what the store answered to the unfiltered
/// read of the `users` table.
pub fn users_from_outcome(outcome: Result<Vec<Vec<Column>>, StoreError>) -> (r: Result<
    Vec<User>,
    ServiceError,
>)
    ensures
        outcome is Err ==> r == Err::<Vec<User>, ServiceError>(ServiceError::Store(outcome->Err_0)),
        outcome is Ok ==> {
            let rows = outcome->Ok_0@;
            &&& r is Ok <==> forall|i: int| 0 <= i < rows.len() ==> row_reads(#[trigger] rows[i]@)
            &&& r is Ok ==> r->Ok_0@.len() == rows.len() && forall|i: int|
                0 <= i < rows.len() ==> row_user(rows[i]@, #[trigger] r->Ok_0@[i])
            &&& r is Err ==> exists|k: int|
                0 <= k < rows.len() && !row_reads(#[trigger] rows[k]@) && (forall|i: int|
                    0 <= i < k ==> row_reads(#[trigger] rows[i]@)) && r->Err_0
                    == ServiceError::Row(row_error(rows[k]@))
        },
{
    match outcome {
        Err(e) => Err(ServiceError::Store(e)),
        Ok(rows) => match users_from_rows(&rows) {
            Ok(users) => Ok(users),
            Err((_, e)) => Err(ServiceError::Row(e)),
        },
    }
}

/// The result of creating a user, given what the store answered to the insert
/// (the inserted row, as the store returned it).
pub fn user_from_outcome(outcome: Result<Vec<Column>, StoreError>) -> (r: Result<
    User,
    ServiceError,
>)
    ensures
        outcome is Err ==> r == Err::<User, ServiceError>(ServiceError::Store(outcome->Err_0)),
        outcome is Ok && row_reads(outcome->Ok_0@) ==> r is Ok && row_user(
            outcome->Ok_0@,
            r->Ok_0,
        ),
        outcome is Ok && !row_reads(outcome->Ok_0@) ==> r == Err::<User, ServiceError>(
            ServiceError::Row(row_error(outcome->Ok_0@)),
        ),
{
    match outcome {
        Err(e) => Err(ServiceError::Store(e)),
        Ok(row) => match user_from_row(&row) {
            Ok(u) => Ok(u),
            Err(e) => Err(ServiceError::Row(e)),
        },
    }
}

} // verus!

use vstd::prelude::*;

use crate::timestamp::Timestamp;

verus! {

/// A stored user: a row of the `users` table.
#[derive(Debug)]
pub struct User {
    pub id: i32,
    pub name: String,
    pub email: String,
    pub created_at: Timestamp,
}

/// A request to create a user. The store assigns `id` and `created_at`.
#[derive(Debug)]
pub struct NewUser {
    pub name: String,
    pub email: String,
}

/// The mathematical value of a `User`.
pub struct UserView {
    pub id: int,
    pub name: Seq<char>,
    pub email: Seq<char>,
    pub created_at: int,
}

impl View for User {
    type V = UserView;

    open spec fn view(&self) -> UserView {
        UserView {
            id: self.id as int,
            name: self.name@,
            email: self.email@,
            created_at: self.created_at.micros as int,
        }
    }
}

impl Clone for User {
    fn clone(&self) -> (r: User)
        ensures
            r == *self,
    {
        User {
            id: self.id,
            name: self.name.clone(),
            email: self.email.clone(),
            created_at: self.created_at,
        }
    }
}

/// Why a request body does not describe a `NewUser`.
#[derive(Clone, Copy, Debug, PartialEq, Eq, Structural)]
pub enum BodyError {
    MissingName,
    MissingEmail,
}

impl NewUser {
    pub fn new(name: String, email: String) -> (r: NewUser)
        ensures
            r.name == name,
            r.email == email,
    {
        NewUser { name, email }
    }

    /// Builds a creation request from the fields found in a request body.
    /// Both fields are required; their contents are not inspected.
    pub fn from_fields(name: Option<String>, email: Option<String>) -> (r: Result<NewUser, BodyError>)
        ensures
            name.is_none() ==> r == Err::<NewUser, BodyError>(BodyError::MissingName),
            name.is_some() && email.is_none() ==> r == Err::<NewUser, BodyError>(
                BodyError::MissingEmail,
            ),
            name.is_some() && email.is_some() ==> r is Ok && r->Ok_0.name == name->Some_0
                && r->Ok_0.email == email->Some_0,
    {
        match name {
            None => Err(BodyError::MissingName),
            Some(n) => match email {
                None => Err(BodyError::MissingEmail),
                Some(e) => Ok(NewUser::new(n, e)),
            },
        }
    }
}

} // verus!

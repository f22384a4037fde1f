//! User records.

use std::marker::PhantomData;
use vstd::prelude::*;

verus! {

/// A stored user.
pub struct User {
    pub id: i64,
    pub username: String,
    pub email: String,
    pub password: String,
    pub level: i32,
}

/// A user about to be stored.
pub struct NewUser {
    pub username: String,
    pub email: String,
    pub password: String,
    pub level: i32,
}

impl NewUser {
    /// A new user at the base privilege level.
    pub fn new(username: String, email: String, password: String) -> (r: NewUser)
        ensures
            r.username@ == username@,
            r.email@ == email@,
            r.password@ == password@,
            r.level == 0,
    {
        NewUser { username, email, password, level: 0 }
    }
}

/// A partial change to a stored user: only the fields that are set change.
pub struct UpdateUser {
    pub username: Option<String>,
    pub email: Option<String>,
    pub password: Option<String>,
    pub level: Option<i32>,
}

/// A record that names a stored user.
pub trait DBUser {
    fn id(&self) -> i64;
}

impl DBUser for User {
    fn id(&self) -> i64 {
        self.id
    }
}

/// A stored user known by id alone.
pub struct UserDescriptor(pub i64);

impl DBUser for UserDescriptor {
    fn id(&self) -> i64 {
        self.0
    }
}

/// The id of the authenticated user of a request.
#[derive(Clone, Copy, Debug, PartialEq, Eq, Structural)]
pub struct UserId(i64);

impl UserId {
    pub fn new(id: i64) -> (r: UserId)
        ensures
            r.id_spec() == id,
    {
        UserId(id)
    }

    pub closed spec fn id_spec(&self) -> i64 {
        self.0
    }

    /// The user's id.
    pub fn id(&self) -> (r: i64)
        ensures
            r == self.id_spec(),
    {
        self.0
    }
}

/// Builds records of kind `T` on behalf of the user with the held id.
pub struct ForUser<T>(pub i64, pub PhantomData<T>);

impl<T> ForUser<T> {
    /// The same user, building records of another kind.
    pub fn into<G>(&self) -> (r: ForUser<G>)
        ensures
            r.0 == self.0,
    {
        ForUser(self.0, PhantomData)
    }

    /// A builder for the user `user`.
    pub fn from(user: UserId) -> (r: ForUser<T>)
        ensures
            r.0 == user.id_spec(),
    {
        ForUser(user.id(), PhantomData)
    }
}

} // verus!

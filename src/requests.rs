//! The records that clients post to the service.

use crate::db::info::BareInfo;
use crate::db::user::NewUser;
use std::collections::HashMap;
use vstd::prelude::*;

verus! {

/// A registration request.
pub struct RegisterUser {
    pub username: String,
    pub password: String,
    pub email: String,
}

impl RegisterUser {
    /// The user that registering creates.
    pub fn to_new_user(&self) -> (r: NewUser)
        ensures
            r.username@ == self.username@,
            r.email@ == self.email@,
            r.password@ == self.password@,
            r.level == 0,
    {
        NewUser::new(self.username.clone(), self.email.clone(), self.password.clone())
    }
}

/// A login request.
pub struct Login {
    pub username: String,
    pub password: String,
}

/// A JSON body returned with status 200.
pub struct JsonResponseOk(pub String);

/// A change to a contact's information: sections or single values to
/// delete (a key with no values deletes the whole section), then values to
/// add.
pub struct Diff {
    pub delete: HashMap<String, Option<Vec<String>>>,
    pub new: BareInfo,
}

} // verus!

//! Personas: the faces under which a user publishes contact details.

use vstd::prelude::*;

verus! {

/// A stored persona.
pub struct Persona {
    pub id: i64,
    pub name: String,
    pub private: bool,
    pub user_id: i64,
}

/// A persona about to be stored.
pub struct NewPersona {
    pub name: String,
    pub private: bool,
    pub user_id: i64,
}

impl NewPersona {
    pub fn new(name: String, private: bool, user_id: i64) -> (r: NewPersona)
        ensures
            r.name@ == name@,
            r.private == private,
            r.user_id == user_id,
    {
        NewPersona { name, private, user_id }
    }

    /// The public persona named "default" that every user gets.
    pub fn new_default(user_id: i64) -> (r: NewPersona)
        ensures
            r.name@ == "default"@,
            !r.private,
            r.user_id == user_id,
    {
        NewPersona { name: "default".to_owned(), private: false, user_id }
    }
}

/// A persona as posted by a client, before it is tied to a user.
pub struct PostPersona {
    pub name: String,
    pub private: bool,
}

impl PostPersona {
    /// The persona to store for the user `user`.
    pub fn to_new_persona(&self, user: i64) -> (r: NewPersona)
        ensures
            r.name@ == self.name@,
            r.private == self.private,
            r.user_id == user,
    {
        NewPersona::new(self.name.clone(), self.private, user)
    }
}

} // verus!

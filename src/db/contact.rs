//! Contacts, their visibility, and the relation that gives a user access to
//! a contact.

use crate::db::user::ForUser;
use vstd::prelude::*;

verus! {

/// Who may see a contact.
#[derive(Clone, Copy, Debug, PartialEq, Eq, Structural)]
pub enum Visibility {
    Local,
    Private,
    Public,
}

/// The stored code of a visibility.
pub open spec fn visibility_code(v: Visibility) -> i16 {
    match v {
        Visibility::Local => 0,
        Visibility::Private => 1,
        Visibility::Public => 2,
    }
}

/// The visibility that a stored code stands for; unknown codes are public.
pub open spec fn visibility_of_code(i: i16) -> Visibility {
    if i == 0 {
        Visibility::Local
    } else if i == 1 {
        Visibility::Private
    } else {
        Visibility::Public
    }
}

impl From<Visibility> for i16 {
    fn from(v: Visibility) -> (r: i16) {
        match v {
            Visibility::Local => 0,
            Visibility::Private => 1,
            Visibility::Public => 2,
        }
    }
}

impl vstd::std_specs::convert::FromSpecImpl<Visibility> for i16 {
    open spec fn obeys_from_spec() -> bool {
        true
    }

    open spec fn from_spec(v: Visibility) -> i16 {
        visibility_code(v)
    }
}

impl From<i16> for Visibility {
    fn from(i: i16) -> (r: Visibility) {
        if i == 0 {
            Visibility::Local
        } else if i == 1 {
            Visibility::Private
        } else {
            Visibility::Public
        }
    }
}

impl vstd::std_specs::convert::FromSpecImpl<i16> for Visibility {
    open spec fn obeys_from_spec() -> bool {
        true
    }

    open spec fn from_spec(i: i16) -> Visibility {
        visibility_of_code(i)
    }
}

/// A contact as posted by a client.
pub struct PostContact {
    pub name: String,
    pub icon: Option<Vec<u8>>,
    pub visibility: i16,
}

impl PostContact {
    pub fn new(name: String, icon: Option<Vec<u8>>, visibility: Visibility) -> (r: PostContact)
        ensures
            r.name@ == name@,
            r.icon == icon,
            r.visibility == visibility_code(visibility),
    {
        PostContact { name, icon, visibility: i16::from(visibility) }
    }

    pub fn visibility(&self) -> (r: Visibility)
        ensures
            r == visibility_of_code(self.visibility),
    {
        Visibility::from(self.visibility)
    }
}

/// A contact about to be stored, with the user who creates it.
pub struct NewContact {
    pub name: String,
    pub icon: Option<Vec<u8>>,
    pub visibility: i16,
    pub creator: i64,
}

impl NewContact {
    pub fn visibility(&self) -> (r: Visibility)
        ensures
            r == visibility_of_code(self.visibility),
    {
        Visibility::from(self.visibility)
    }

    pub fn set_visibility(&mut self, v: Visibility)
        ensures
            final(self).visibility == visibility_code(v),
            final(self).name == old(self).name,
            final(self).icon == old(self).icon,
            final(self).creator == old(self).creator,
    {
        self.visibility = i16::from(v);
    }
}

impl ForUser<NewContact> {
    /// A contact created by this builder's user.
    pub fn new(&self, name: String, icon: Option<Vec<u8>>, vis: Visibility) -> (r: NewContact)
        ensures
            r.name@ == name@,
            r.icon == icon,
            r.visibility == visibility_code(vis),
            r.creator == self.0,
    {
        NewContact { name, icon, visibility: i16::from(vis), creator: self.0 }
    }

    /// A local contact named "No Name", without an icon.
    pub fn new_default(&self) -> (r: NewContact)
        ensures
            r.name@ == "No Name"@,
            r.icon is None,
            r.visibility == visibility_code(Visibility::Local),
            r.creator == self.0,
    {
        self.new("No Name".to_owned(), None, Visibility::Local)
    }
}

impl ForUser<PostContact> {
    /// The posted contact, created by this builder's user.
    pub fn relate(&self, this: PostContact) -> (r: NewContact)
        ensures
            r.name@ == this.name@,
            r.icon == this.icon,
            r.visibility == this.visibility,
            r.creator == self.0,
    {
        NewContact { name: this.name, icon: this.icon, visibility: this.visibility, creator: self.0 }
    }
}

/// A partial change to a contact, as posted by a client.
pub struct UpdateContact {
    pub name: Option<String>,
    pub icon: Option<Option<Vec<u8>>>,
    pub visibility: Option<i16>,
}

impl UpdateContact {
    pub fn new(name: Option<String>, icon: Option<Option<Vec<u8>>>) -> (r: UpdateContact)
        ensures
            r.name == name,
            r.icon == icon,
            r.visibility is None,
    {
        UpdateContact { name, icon, visibility: None }
    }

    pub fn visibility(&self) -> (r: Option<Visibility>)
        ensures
            match self.visibility {
                Some(i) => r == Some(visibility_of_code(i)),
                None => r is None,
            },
    {
        match self.visibility {
            Some(i) => Some(Visibility::from(i)),
            None => None,
        }
    }

    pub fn set_visibility(&mut self, v: Option<Visibility>)
        ensures
            match v {
                Some(x) => final(self).visibility == Some(visibility_code(x)),
                None => final(self).visibility is None,
            },
            final(self).name == old(self).name,
            final(self).icon == old(self).icon,
    {
        self.visibility = match v {
            Some(x) => Some(i16::from(x)),
            None => None,
        };
    }
}

/// A partial change to a contact, with the user who makes it.
pub struct ContactChangeset {
    pub name: Option<String>,
    pub icon: Option<Option<Vec<u8>>>,
    pub visibility: Option<i16>,
    pub creator: i64,
}

impl ForUser<UpdateContact> {
    /// The change `u`, made by this builder's user.
    pub fn get(&self, u: UpdateContact) -> (r: ContactChangeset)
        ensures
            r.name == u.name,
            r.icon == u.icon,
            r.visibility == u.visibility,
            r.creator == self.0,
    {
        ContactChangeset { name: u.name, icon: u.icon, visibility: u.visibility, creator: self.0 }
    }
}

/// A stored contact.
pub struct Contact {
    pub id: i64,
    pub name: String,
    pub icon: Option<Vec<u8>>,
    pub visibility: i16,
    pub creator: i64,
}

impl Contact {
    pub fn new(id: i64, name: String, icon: Option<Vec<u8>>, vis: Visibility, creator: i64) -> (r:
        Contact)
        ensures
            r.id == id,
            r.name@ == name@,
            r.icon == icon,
            r.visibility == visibility_code(vis),
            r.creator == creator,
    {
        Contact { id, name, icon, visibility: i16::from(vis), creator }
    }

    pub fn visibility(&self) -> (r: Visibility)
        ensures
            r == visibility_of_code(self.visibility),
    {
        Visibility::from(self.visibility)
    }

    pub fn set_visibility(&mut self, v: Visibility)
        ensures
            final(self).visibility == visibility_code(v),
            final(self).id == old(self).id,
            final(self).creator == old(self).creator,
    {
        self.visibility = i16::from(v);
    }

    /// The contact by id alone.
    pub fn id(&self) -> (r: ContactDescriptor)
        ensures
            r.0 == self.id,
    {
        ContactDescriptor(self.id)
    }
}

/// Gives the user (first) access to the contact (second).
#[derive(Clone, Copy, Debug, PartialEq, Eq, Structural)]
pub struct UserContactRelation(pub i64, pub i64);

/// A stored contact known by id alone.
#[derive(Clone, Copy, Debug, PartialEq, Eq, Structural)]
pub struct ContactDescriptor(pub i64);

} // verus!

//! Who may do what: the access rules that the service applies once a
//! request's user is known.

use crate::db::contact::{visibility_of_code, Contact, Visibility};
use crate::db::persona::Persona;
use crate::db::user::User;
use vstd::prelude::*;

verus! {

/// Whether a contact is visible to everyone.
pub fn is_public(contact: &Contact) -> (r: bool)
    ensures
        r == (visibility_of_code(contact.visibility) == Visibility::Public),
{
    match contact.visibility() {
        Visibility::Public => true,
        _ => false,
    }
}

/// Whether `actor` may hand out a capability key for `contact`: the
/// contact's creator may, and anyone may for a public contact.
pub fn may_share_contact(contact: &Contact, actor: i64) -> (r: bool)
    ensures
        r == (contact.creator == actor || visibility_of_code(contact.visibility) == Visibility::Public),
{
    contact.creator == actor || is_public(contact)
}

/// Whether `actor` may hand out a capability key for `persona`: its owner
/// may, and anyone may for a persona that is not private.
pub fn may_share_persona(persona: &Persona, actor: i64) -> (r: bool)
    ensures
        r == (persona.user_id == actor || !persona.private),
{
    persona.user_id == actor || !persona.private
}

/// Whether `actor` may delete the account `target`: an account may be
/// deleted by its owner, and an account of level one or above by anyone
/// who also presents its password.
pub fn may_delete_account(target: &User, actor: i64) -> (r: bool)
    ensures
        r == (target.id == actor || target.level >= 1),
{
    target.id == actor || target.level >= 1
}

/// Whether `actor` may post information to a contact whose creator is
/// `creator`: only the creator may.
pub fn may_post_info(creator: &User, actor: i64) -> (r: bool)
    ensures
        r == (creator.id == actor),
{
    creator.id == actor
}

} // verus!

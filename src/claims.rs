//! Token claims: the payload of each token kind, its lifetime, and how it
//! is carried in the codec's claims.

use crate::db::user::User;
use crate::codec::{WireClaims, WireClaimsView};
use vstd::prelude::*;

verus! {

/// Why a presented token was refused, or a token could not be minted.
#[derive(Clone, Copy, Debug, PartialEq, Eq, Structural)]
pub enum AuthError {
    /// The token cannot be parsed.
    Malformed,
    /// The authentication tag does not match: treated like an unknown token.
    SignatureInvalid,
    /// The token's expiry has passed.
    Expired,
    /// A login token inside its renewal window: still valid, but the client
    /// must renew it.
    RenewalRequired,
    /// The token was revoked.
    Revoked,
    /// The claims could not be encoded into a token.
    EncodingFailed,
}

/// Lifetime of a login token, in seconds (two hours).
pub const LOGIN_LIFETIME: u64 = 7200;

/// Lifetime of a capability token, in seconds (one day).
pub const CAPABILITY_LIFETIME: u64 = 86400;

/// The trailing part of a login token's lifetime, in seconds, in which
/// verification asks for renewal (ten minutes).
pub const RENEWAL_WINDOW: u64 = 600;

/// Name of the request header that carries the bearer token.
pub const AUTH_HEADER_NAME: &'static str = "authentication";

/// Name of the integer claim that carries a login token's user id.
pub const USER_ID_CLAIM: &'static str = "user_id";

/// Name of the integer claim that carries a capability token's resource id.
pub const RESOURCE_ID_CLAIM: &'static str = "id";

/// A bearer token as presented by a client.
pub struct Token(pub String);

/// The claims of a verified token: the kind's payload and the instants, in
/// seconds since the epoch, at which the token was issued and expires.
pub struct TokenClaims<T> {
    pub custom: T,
    pub issued_at: u64,
    pub expires_at: u64,
}

impl<T: View> View for TokenClaims<T> {
    type V = TokenClaims<T::V>;

    open spec fn view(&self) -> TokenClaims<T::V> {
        TokenClaims { custom: self.custom@, issued_at: self.issued_at, expires_at: self.expires_at }
    }
}

/// The mathematical value of a verification outcome.
pub open spec fn claims_result<T: View>(r: Result<TokenClaims<T>, AuthError>) -> Result<
    TokenClaims<T::V>,
    AuthError,
> {
    match r {
        Ok(c) => Ok(c@),
        Err(e) => Err(e),
    }
}

/// The identity that a login token asserts.
pub struct LoginJwt {
    pub username: String,
    pub user_id: i64,
}

/// The mathematical value of a [`LoginJwt`].
pub ghost struct LoginJwtView {
    pub username: Seq<char>,
    pub user_id: i64,
}

impl View for LoginJwt {
    type V = LoginJwtView;

    open spec fn view(&self) -> LoginJwtView {
        LoginJwtView { username: self.username@, user_id: self.user_id }
    }
}

impl LoginJwt {
    pub fn new(username: String, user_id: i64) -> (r: LoginJwt)
        ensures
            r@ == (LoginJwtView { username: username@, user_id }),
    {
        LoginJwt { username, user_id }
    }
}

impl Clone for LoginJwt {
    fn clone(&self) -> (r: LoginJwt)
        ensures
            r@ == self@,
    {
        LoginJwt { username: self.username.clone(), user_id: self.user_id }
    }
}

/// The identity of a stored user.
impl From<User> for LoginJwt {
    fn from(u: User) -> (r: LoginJwt) {
        LoginJwt { username: u.username, user_id: u.id }
    }
}

impl vstd::std_specs::convert::FromSpecImpl<User> for LoginJwt {
    open spec fn obeys_from_spec() -> bool {
        true
    }

    open spec fn from_spec(u: User) -> LoginJwt {
        LoginJwt { username: u.username, user_id: u.id }
    }
}

/// Two login identities are equal when their usernames are.
impl PartialEq for LoginJwt {
    fn eq(&self, other: &LoginJwt) -> (r: bool) {
        self.username == other.username
    }
}

impl vstd::std_specs::cmp::PartialEqSpecImpl for LoginJwt {
    open spec fn obeys_eq_spec() -> bool {
        true
    }

    open spec fn eq_spec(&self, other: &LoginJwt) -> bool {
        self.username@ == other.username@
    }
}

/// A capability for one persona, by its id.
#[derive(Clone, Copy, Debug, PartialEq, Eq, Structural)]
pub struct PersonaJwt(pub i64);

impl View for PersonaJwt {
    type V = i64;

    open spec fn view(&self) -> i64 {
        self.0
    }
}

/// A capability for one contact, by its id.
#[derive(Clone, Copy, Debug, PartialEq, Eq, Structural)]
pub struct ContactJwt {
    pub id: i64,
}

impl View for ContactJwt {
    type V = i64;

    open spec fn view(&self) -> i64 {
        self.id
    }
}

/// How the codec carries a login identity: the username as subject and the
/// user id as the one integer claim.
pub open spec fn login_wire(id: LoginJwtView, issued_at: u64, expires_at: u64) -> WireClaimsView {
    WireClaimsView {
        subject: Some(id.username),
        fields: seq![(USER_ID_CLAIM@, id.user_id)],
        issued_at: Some(issued_at),
        expires_at: Some(expires_at),
    }
}

/// How the codec carries a capability: no subject, and the resource id as
/// the one integer claim.
pub open spec fn resource_wire(id: i64, issued_at: u64, expires_at: u64) -> WireClaimsView {
    WireClaimsView {
        subject: None,
        fields: seq![(RESOURCE_ID_CLAIM@, id)],
        issued_at: Some(issued_at),
        expires_at: Some(expires_at),
    }
}

/// The login claims that decoded claims carry, if they have that shape.
pub open spec fn login_of_wire(w: WireClaimsView) -> Option<TokenClaims<LoginJwtView>> {
    if w.subject is Some && w.issued_at is Some && w.expires_at is Some && w.fields.len() == 1
        && w.fields[0].0 == USER_ID_CLAIM@ {
        Some(
            TokenClaims {
                custom: LoginJwtView { username: w.subject->Some_0, user_id: w.fields[0].1 },
                issued_at: w.issued_at->Some_0,
                expires_at: w.expires_at->Some_0,
            },
        )
    } else {
        None
    }
}

/// The capability claims that decoded claims carry, if they have that shape.
pub open spec fn resource_of_wire(w: WireClaimsView) -> Option<TokenClaims<i64>> {
    if w.subject is None && w.issued_at is Some && w.expires_at is Some && w.fields.len() == 1
        && w.fields[0].0 == RESOURCE_ID_CLAIM@ {
        Some(
            TokenClaims {
                custom: w.fields[0].1,
                issued_at: w.issued_at->Some_0,
                expires_at: w.expires_at->Some_0,
            },
        )
    } else {
        None
    }
}

/// Reads the login claims out of decoded claims.
pub fn login_of_claims(w: WireClaims) -> (r: Option<TokenClaims<LoginJwt>>)
    ensures
        match r {
            Some(c) => login_of_wire(w@) == Some(c@),
            None => login_of_wire(w@) is None,
        },
{
    let ghost wv = w@;
    if w.fields.len() != 1 {
        return None;
    }
    let name = USER_ID_CLAIM.to_owned();
    if !(w.fields[0].0 == name) {
        return None;
    }
    let user_id = w.fields[0].1;
    match (w.subject, w.issued_at, w.expires_at) {
        (Some(username), Some(issued_at), Some(expires_at)) => Some(
            TokenClaims { custom: LoginJwt { username, user_id }, issued_at, expires_at },
        ),
        _ => None,
    }
}

/// Reads the resource id out of decoded capability claims.
pub fn resource_of_claims(w: &WireClaims) -> (r: Option<TokenClaims<i64>>)
    ensures
        match r {
            Some(c) => resource_of_wire(w@) == Some(c),
            None => resource_of_wire(w@) is None,
        },
{
    if w.fields.len() != 1 || w.subject.is_some() {
        return None;
    }
    let name = RESOURCE_ID_CLAIM.to_owned();
    if !(w.fields[0].0 == name) {
        return None;
    }
    match (w.issued_at, w.expires_at) {
        (Some(issued_at), Some(expires_at)) => Some(
            TokenClaims { custom: w.fields[0].1, issued_at, expires_at },
        ),
        _ => None,
    }
}

} // verus!

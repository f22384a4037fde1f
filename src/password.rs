//! Password handling: the five-fold SHA-512 pre-hash that every password
//! goes through, and the salted bcrypt hash that is stored.

use crate::db::user::{NewUser, User};
use crate::requests::Login;
use bcrypt::BcryptError;
use sha2::{Digest, Sha512};
use vstd::prelude::*;

verus! {

#[verifier::external_type_specification]
#[verifier::external_body]
pub struct ExBcryptError(BcryptError);

/// Why a password could not be hashed or checked.
#[derive(Clone, Copy, Debug, PartialEq, Eq, Structural)]
pub enum PasswordError {
    /// bcrypt refused the password or the stored hash.
    Bcrypt,
}

fn password_error(e: BcryptError) -> (r: PasswordError)
    ensures
        r == PasswordError::Bcrypt,
{
    PasswordError::Bcrypt
}

/// The SHA-512 digest of the UTF-8 encoding of `s`.
pub uninterp spec fn sha512_text(s: Seq<char>) -> Seq<u8>;

/// Relies on `sha2::Sha512`'s `Digest::digest` over the bytes of `s`; a
/// SHA-512 digest is 64 bytes long.
#[verifier::external_body]
fn sha512_of(s: &str) -> (r: Vec<u8>)
    ensures
        r@ == sha512_text(s@),
        r@.len() == 64,
{
    Sha512::digest(s.as_bytes()).to_vec()
}

/// The standard, padded base64 encoding of `b`.
pub uninterp spec fn base64_text(b: Seq<u8>) -> Seq<char>;

/// Relies on `base64::encode` (standard alphabet, padded): four characters
/// for every three bytes begun.
#[verifier::external_body]
fn base64_of(b: &[u8]) -> (r: String)
    ensures
        r@ == base64_text(b@),
        r@.len() == 4 * ((b@.len() + 2) / 3),
{
    base64::encode(b)
}

/// Whether bcrypt finds `password` to match the stored `hash`; `None` when
/// bcrypt cannot read the hash.
pub uninterp spec fn bcrypt_match(password: Seq<char>, hash: Seq<char>) -> Option<bool>;

/// Relies on `bcrypt::verify`: it re-hashes `password` with the cost and
/// salt read from `hash` and compares.
#[verifier::external_body]
fn bcrypt_verify(password: &str, hash: &str) -> (r: Result<bool, BcryptError>)
    ensures
        match r {
            Ok(b) => bcrypt_match(password@, hash@) == Some(b),
            Err(_) => bcrypt_match(password@, hash@) is None,
        },
{
    bcrypt::verify(password, hash)
}

/// Relies on `bcrypt::hash` at `bcrypt::DEFAULT_COST`. The salt is drawn
/// from the operating system's randomness, so the hash itself is not known;
/// but `bcrypt::verify` re-hashes with the cost and salt that it records, so
/// the password matches it.
#[verifier::external_body]
fn bcrypt_hash(password: &str) -> (r: Result<String, BcryptError>)
    ensures
        r matches Ok(h) ==> bcrypt_match(password@, h@) == Some(true),
{
    bcrypt::hash(password, bcrypt::DEFAULT_COST)
}

/// How many times a password is pre-hashed.
pub const PRE_HASH_ROUNDS: usize = 5;

/// `s` after `rounds` rounds of SHA-512 followed by base64.
pub open spec fn pre_hash(s: Seq<char>, rounds: nat) -> Seq<char>
    decreases rounds,
{
    if rounds == 0 {
        s
    } else {
        base64_text(sha512_text(pre_hash(s, (rounds - 1) as nat)))
    }
}

/// The pre-hash of a password: five rounds of SHA-512, each digest written
/// out in base64.
pub fn encrypt_password(p: &String) -> (r: String)
    ensures
        r@ == pre_hash(p@, PRE_HASH_ROUNDS as nat),
{
    let mut out = p.clone();
    let mut i: usize = 0;
    while i < PRE_HASH_ROUNDS
        invariant
            i <= PRE_HASH_ROUNDS,
            out@ == pre_hash(p@, i as nat),
        decreases PRE_HASH_ROUNDS - i,
    {
        let digest = sha512_of(out.as_str());
        out = base64_of(digest.as_slice());
        i = i + 1;
    }
    out
}

impl Login {
    /// The same login with its password pre-hashed.
    pub fn encrypt(&self) -> (r: Login)
        ensures
            r.username@ == self.username@,
            r.password@ == pre_hash(self.password@, PRE_HASH_ROUNDS as nat),
    {
        Login { username: self.username.clone(), password: encrypt_password(&self.password) }
    }
}

impl NewUser {
    /// The same user with the password pre-hashed.
    pub fn encrypt(&self) -> (r: NewUser)
        ensures
            r.username@ == self.username@,
            r.email@ == self.email@,
            r.level == self.level,
            r.password@ == pre_hash(self.password@, PRE_HASH_ROUNDS as nat),
    {
        NewUser {
            username: self.username.clone(),
            email: self.email.clone(),
            password: encrypt_password(&self.password),
            level: self.level,
        }
    }

    /// The same user with the password replaced by its salted bcrypt hash,
    /// the form in which it is stored.
    pub fn salt(&self) -> (r: Result<NewUser, PasswordError>)
        ensures
            r matches Ok(u) ==> u.username@ == self.username@ && u.email@ == self.email@ && u.level
                == self.level && bcrypt_match(self.password@, u.password@) == Some(true),
    {
        match bcrypt_hash(self.password.as_str()) {
            Ok(password) => Ok(
                NewUser {
                    username: self.username.clone(),
                    email: self.email.clone(),
                    password,
                    level: self.level,
                },
            ),
            Err(e) => Err(password_error(e)),
        }
    }
}

impl User {
    /// Whether the (pre-hashed) password of `other` matches this user's
    /// stored hash.
    pub fn password_cmp(&self, other: &Login) -> (r: Result<bool, PasswordError>)
        ensures
            match bcrypt_match(other.password@, self.password@) {
                Some(b) => r == Ok::<bool, PasswordError>(b),
                None => r is Err,
            },
    {
        match bcrypt_verify(other.password.as_str(), self.password.as_str()) {
            Ok(b) => Ok(b),
            Err(e) => Err(password_error(e)),
        }
    }
}

} // verus!

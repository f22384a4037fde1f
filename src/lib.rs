//! Token authentication and revocation for an address-book service.
//!
//! The crate holds the verified core of the service: the revocation store
//! that remembers logged-out tokens until they expire, the signed-claims
//! codec built on `jwt_simple`, the token verifiers for login and capability
//! tokens, password pre-hashing, the access rules, and the plain records
//! that the service exchanges. Clocks, locks, threads, the data store and
//! HTTP stay outside: every function here that depends on time takes the
//! current instant as an argument.

pub mod access;
pub mod claims;
pub mod codec;
pub mod db;
pub mod password;
pub mod requests;
pub mod revocation;
pub mod verification;

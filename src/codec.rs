//! The signed-claims codec: HS256-authenticated JSON Web Tokens through
//! `jwt_simple`.
//!
//! A token carries an optional subject string, named integer claims, and
//! the instants at which it was issued and at which it expires. Decoding
//! checks the authentication tag and the token's shape only; expiry is
//! checked by the callers against their own clock, after the tag has been
//! checked.

use jwt_simple::prelude::{Duration, HS256Key, JWTClaims, MACLike, VerificationOptions};
use jwt_simple::JWTError;
use std::collections::BTreeMap;
use vstd::prelude::*;

verus! {

/// Why the codec refused to encode or decode a token.
#[derive(Clone, Copy, Debug, PartialEq, Eq, Structural)]
pub enum CodecError {
    /// The authentication tag does not match the token's content.
    SignatureInvalid,
    /// The token cannot be parsed as a token of this codec.
    Malformed,
    /// The key is shorter than the codec accepts.
    WeakKey,
    /// The claims could not be serialised.
    Unencodable,
}

/// The shortest key, in bytes, that the codec accepts.
pub const MIN_KEY_LEN: usize = 12;

/// Instants are carried exactly while they stay below this bound.
pub const TIMESTAMP_LIMIT: u64 = 0x1_0000_0000;

/// The claims that a token carries, as plain values.
pub struct WireClaims {
    pub subject: Option<String>,
    pub fields: Vec<(String, i64)>,
    pub issued_at: Option<u64>,
    pub expires_at: Option<u64>,
}

/// The mathematical value of [`WireClaims`].
pub ghost struct WireClaimsView {
    pub subject: Option<Seq<char>>,
    pub fields: Seq<(Seq<char>, i64)>,
    pub issued_at: Option<u64>,
    pub expires_at: Option<u64>,
}

pub open spec fn opt_string_view(s: Option<String>) -> Option<Seq<char>> {
    match s {
        Some(v) => Some(v@),
        None => None,
    }
}

impl View for WireClaims {
    type V = WireClaimsView;

    open spec fn view(&self) -> WireClaimsView {
        WireClaimsView {
            subject: opt_string_view(self.subject),
            fields: self.fields@.map_values(|f: (String, i64)| (f.0@, f.1)),
            issued_at: self.issued_at,
            expires_at: self.expires_at,
        }
    }
}

/// The names of the registered claims, which a named integer claim must
/// not reuse.
pub open spec fn registered_claim(name: Seq<char>) -> bool {
    name == "iat"@ || name == "exp"@ || name == "nbf"@ || name == "iss"@ || name == "sub"@
        || name == "aud"@ || name == "jti"@ || name == "nonce"@
}

/// What decoding `token` under the HS256 key `key` gives.
pub uninterp spec fn hs256_decoded(key: Seq<u8>, token: Seq<char>) -> Result<
    WireClaimsView,
    CodecError,
>;

/// The token that signing the given claims under `key` gives: HMAC-SHA256
/// over the JSON header and claims, so the same arguments give the same
/// token.
pub uninterp spec fn hs256_token(
    key: Seq<u8>,
    subject: Option<Seq<char>>,
    field: Seq<char>,
    value: i64,
    issued_at: u64,
    expires_at: u64,
) -> Seq<char>;

/// Relies on `MACLike::authenticate` for `HS256Key`: it refuses keys shorter
/// than twelve bytes and, past that check, cannot fail for these claims (an
/// unsalted key, claims of strings and integers). The token depends on the
/// arguments alone, and decodes, under the same key, to the claims it was
/// given (timestamps travel as whole seconds, held exactly below 2^32).
#[verifier::external_body]
pub(crate) fn hs256_sign(
    key: &[u8],
    subject: Option<String>,
    field: String,
    value: i64,
    issued_at: u64,
    expires_at: u64,
) -> (r: Result<String, CodecError>)
    ensures
        (r matches Err(CodecError::WeakKey)) <==> key@.len() < MIN_KEY_LEN,
        key@.len() >= MIN_KEY_LEN ==> r is Ok,
        r matches Ok(t) ==> t@ == hs256_token(
            key@,
            opt_string_view(subject),
            field@,
            value,
            issued_at,
            expires_at,
        ),
        r matches Ok(t) ==> (issued_at < TIMESTAMP_LIMIT && expires_at < TIMESTAMP_LIMIT
            && !registered_claim(field@) ==> hs256_decoded(
            key@,
            t@,
        ) == Ok::<WireClaimsView, CodecError>(
            WireClaimsView {
                subject: opt_string_view(subject),
                fields: seq![(field@, value)],
                issued_at: Some(issued_at),
                expires_at: Some(expires_at),
            },
        )),
{
    let claims = JWTClaims {
        issued_at: Some(Duration::from_secs(issued_at)),
        expires_at: Some(Duration::from_secs(expires_at)),
        invalid_before: Some(Duration::from_secs(issued_at)),
        issuer: None,
        subject,
        audiences: None,
        jwt_id: None,
        nonce: None,
        custom: BTreeMap::from([(field, value)]),
    };
    HS256Key::from_bytes(key).authenticate(claims).map_err(|e| match e.downcast_ref::<JWTError>() {
        Some(JWTError::WeakKey) => CodecError::WeakKey,
        _ => CodecError::Unencodable,
    })
}

/// Relies on `MACLike::verify_token` for `HS256Key`, with the crate's own
/// clock checks switched off (a fixed instant of zero, no tolerance, tokens
/// from the future accepted), so that the outcome depends on key and token
/// alone; no limit is put on the token's length. A tag mismatch is
/// `InvalidAuthenticationTag`; a key shorter than twelve bytes is refused
/// before anything else.
#[verifier::external_body]
pub(crate) fn hs256_decode(key: &[u8], token: &str) -> (r: Result<WireClaims, CodecError>)
    ensures
        match r {
            Ok(c) => hs256_decoded(key@, token@) == Ok::<WireClaimsView, CodecError>(c@),
            Err(e) => hs256_decoded(key@, token@) == Err::<WireClaimsView, CodecError>(e),
        },
        (r matches Err(CodecError::WeakKey)) <==> key@.len() < MIN_KEY_LEN,
{
    let zero = Some(Duration::from_secs(0));
    let options = VerificationOptions { accept_future: true, time_tolerance: zero, artificial_time: zero,
        max_token_length: None, ..Default::default() };
    match HS256Key::from_bytes(key).verify_token::<BTreeMap<String, i64>>(token, Some(options)) {
        Ok(c) => Ok(WireClaims { subject: c.subject, fields: c.custom.into_iter().collect(),
            issued_at: c.issued_at.map(|t| t.as_secs()), expires_at: c.expires_at.map(|t| t.as_secs()) }),
        Err(e) => Err(match e.downcast_ref::<JWTError>() {
            Some(JWTError::InvalidAuthenticationTag) => CodecError::SignatureInvalid,
            Some(JWTError::WeakKey) => CodecError::WeakKey,
            _ => CodecError::Malformed,
        }),
    }
}

} // verus!

//! Token verifiers: the verify / authorize / reauthorize / revoke protocol
//! for login tokens, and the capability verifiers for personas and
//! contacts.
//!
//! Every check that involves time takes the current instant `now`, in
//! seconds since the epoch, as an argument.

use crate::claims::{
    claims_result, login_of_claims, login_of_wire, login_wire, resource_of_claims,
    resource_of_wire, resource_wire, AuthError, ContactJwt, LoginJwt, LoginJwtView, PersonaJwt,
    Token, TokenClaims, CAPABILITY_LIFETIME, LOGIN_LIFETIME, RENEWAL_WINDOW, RESOURCE_ID_CLAIM,
    USER_ID_CLAIM,
};
use crate::codec::{
    hs256_decode, hs256_decoded, hs256_sign, registered_claim, CodecError, WireClaims,
    WireClaimsView, hs256_token, MIN_KEY_LEN, TIMESTAMP_LIMIT,
};
use crate::db::contact::{Contact, UserContactRelation};
use crate::db::user::User;
use crate::revocation::{holds_token, EntryModel, JwtData, RevocationStore};
use vstd::prelude::*;

verus! {

/// The verification error that a codec error stands for. A key too short
/// to authenticate anything verifies nothing.
pub open spec fn auth_error_of(e: CodecError) -> AuthError {
    match e {
        CodecError::SignatureInvalid => AuthError::SignatureInvalid,
        CodecError::WeakKey => AuthError::SignatureInvalid,
        CodecError::Malformed => AuthError::Malformed,
        CodecError::Unencodable => AuthError::Malformed,
    }
}

fn to_auth_error(e: CodecError) -> (r: AuthError)
    ensures
        r == auth_error_of(e),
{
    match e {
        CodecError::SignatureInvalid => AuthError::SignatureInvalid,
        CodecError::WeakKey => AuthError::SignatureInvalid,
        CodecError::Malformed => AuthError::Malformed,
        CodecError::Unencodable => AuthError::Malformed,
    }
}

/// The mathematical value of a decoding outcome.
pub open spec fn decoded_view(d: Result<WireClaims, CodecError>) -> Result<
    WireClaimsView,
    CodecError,
> {
    match d {
        Ok(c) => Ok(c@),
        Err(e) => Err(e),
    }
}

/// The outcome of verifying the login token `token` at `now`, given what
/// the codec decoded from it and the revoked entries. The tag is checked
/// first, then the shape, then expiry (a token expires once `now` passes
/// its expiry), then revocation, and last, when `renewal` is set, the
/// renewal window: fewer than ten minutes left.
pub open spec fn login_outcome(
    decoded: Result<WireClaimsView, CodecError>,
    token: Seq<char>,
    now: u64,
    revoked: Seq<EntryModel>,
    renewal: bool,
) -> Result<TokenClaims<LoginJwtView>, AuthError> {
    match decoded {
        Err(e) => Err(auth_error_of(e)),
        Ok(w) => match login_of_wire(w) {
            None => Err(AuthError::Malformed),
            Some(c) => if c.expires_at < now {
                Err(AuthError::Expired)
            } else if holds_token(revoked, token) {
                Err(AuthError::Revoked)
            } else if renewal && c.expires_at - now < RENEWAL_WINDOW {
                Err(AuthError::RenewalRequired)
            } else {
                Ok(c)
            },
        },
    }
}

/// The outcome of verifying `token` under `key` as a login token.
pub open spec fn login_verdict(
    key: Seq<u8>,
    token: Seq<char>,
    now: u64,
    revoked: Seq<EntryModel>,
    renewal: bool,
) -> Result<TokenClaims<LoginJwtView>, AuthError> {
    login_outcome(hs256_decoded(key, token), token, now, revoked, renewal)
}

/// The outcome of verifying a capability token at `now`, given what the
/// codec decoded from it: tag, shape, then expiry.
pub open spec fn capability_outcome(decoded: Result<WireClaimsView, CodecError>, now: u64) -> Result<
    TokenClaims<i64>,
    AuthError,
> {
    match decoded {
        Err(e) => Err(auth_error_of(e)),
        Ok(w) => match resource_of_wire(w) {
            None => Err(AuthError::Malformed),
            Some(c) => if c.expires_at < now {
                Err(AuthError::Expired)
            } else {
                Ok(c)
            },
        },
    }
}

/// The outcome of verifying `token` under `key` as a capability token.
pub open spec fn capability_verdict(key: Seq<u8>, token: Seq<char>, now: u64) -> Result<
    TokenClaims<i64>,
    AuthError,
> {
    capability_outcome(hs256_decoded(key, token), now)
}

/// `token` was minted under `key` at `now` for the login identity `id`: it
/// is the token that signing gives for that identity, issued at `now` and
/// expiring two hours later, and it decodes to that identity and those
/// instants.
pub open spec fn login_minted(key: Seq<u8>, id: LoginJwtView, now: u64, token: Seq<char>) -> bool {
    &&& now + LOGIN_LIFETIME < TIMESTAMP_LIMIT
    &&& token == hs256_token(
        key,
        Some(id.username),
        USER_ID_CLAIM@,
        id.user_id,
        now,
        (now + LOGIN_LIFETIME) as u64,
    )
    &&& hs256_decoded(key, token) == Ok::<
        WireClaimsView,
        CodecError,
    >(login_wire(id, now, (now + LOGIN_LIFETIME) as u64))
}

/// `token` was minted under `key` at `now` as a capability for the resource
/// `id`: it is the token that signing gives for that resource, issued at
/// `now` and expiring one day later, and it decodes to that resource and
/// those instants.
pub open spec fn resource_minted(key: Seq<u8>, id: i64, now: u64, token: Seq<char>) -> bool {
    &&& now + CAPABILITY_LIFETIME < TIMESTAMP_LIMIT
    &&& token == hs256_token(
        key,
        None,
        RESOURCE_ID_CLAIM@,
        id,
        now,
        (now + CAPABILITY_LIFETIME) as u64,
    )
    &&& hs256_decoded(key, token) == Ok::<
        WireClaimsView,
        CodecError,
    >(resource_wire(id, now, (now + CAPABILITY_LIFETIME) as u64))
}

proof fn lemma_claim_names_free()
    ensures
        !registered_claim(USER_ID_CLAIM@),
        !registered_claim(RESOURCE_ID_CLAIM@),
{
    reveal_strlit("user_id");
    reveal_strlit("id");
    reveal_strlit("iat");
    reveal_strlit("exp");
    reveal_strlit("nbf");
    reveal_strlit("iss");
    reveal_strlit("sub");
    reveal_strlit("aud");
    reveal_strlit("jti");
    reveal_strlit("nonce");
    assert(USER_ID_CLAIM@.len() == 7);
    assert(RESOURCE_ID_CLAIM@ =~= seq!['i', 'd']);
    assert("iat"@[1] == 'a');
}

/// Decides a login token from what the codec decoded from it.
pub fn check_login(
    decoded: Result<WireClaims, CodecError>,
    token: &String,
    now: u64,
    blacklist: &RevocationStore,
    renewal: bool,
) -> (r: Result<TokenClaims<LoginJwt>, AuthError>)
    ensures
        claims_result(r) == login_outcome(decoded_view(decoded), token@, now, blacklist@, renewal),
{
    let w = match decoded {
        Ok(w) => w,
        Err(e) => return Err(to_auth_error(e)),
    };
    let c = match login_of_claims(w) {
        Some(c) => c,
        None => return Err(AuthError::Malformed),
    };
    if c.expires_at < now {
        return Err(AuthError::Expired);
    }
    if blacklist.contains(token) {
        return Err(AuthError::Revoked);
    }
    if renewal && c.expires_at - now < RENEWAL_WINDOW {
        return Err(AuthError::RenewalRequired);
    }
    Ok(c)
}

/// Decides a capability token from what the codec decoded from it.
pub fn check_capability(decoded: Result<WireClaims, CodecError>, now: u64) -> (r: Result<
    TokenClaims<i64>,
    AuthError,
>)
    ensures
        claims_result(r) == capability_outcome(decoded_view(decoded), now),
{
    let w = match decoded {
        Ok(w) => w,
        Err(e) => return Err(to_auth_error(e)),
    };
    let c = match resource_of_claims(&w) {
        Some(c) => c,
        None => return Err(AuthError::Malformed),
    };
    if c.expires_at < now {
        return Err(AuthError::Expired);
    }
    Ok(c)
}

impl LoginJwt {
    /// Mints a login token for this identity under `key`, issued at `now`
    /// and valid for two hours.
    pub fn encode(&self, key: &[u8], now: u64) -> (r: Result<String, AuthError>)
        ensures
            match r {
                Ok(t) => login_minted(key@, self@, now, t@),
                Err(e) => e == AuthError::EncodingFailed,
            },
            r is Ok <==> (key@.len() >= MIN_KEY_LEN && now + LOGIN_LIFETIME < TIMESTAMP_LIMIT),
    {
        if now >= TIMESTAMP_LIMIT - LOGIN_LIFETIME {
            return Err(AuthError::EncodingFailed);
        }
        proof {
            lemma_claim_names_free();
        }
        let expires = now + LOGIN_LIFETIME;
        match hs256_sign(
            key,
            Some(self.username.clone()),
            USER_ID_CLAIM.to_owned(),
            self.user_id,
            now,
            expires,
        ) {
            Ok(t) => Ok(t),
            Err(_) => Err(AuthError::EncodingFailed),
        }
    }
}

/// Mints a capability token for the resource `id` under `key`, issued at
/// `now` and valid for one day.
fn encode_resource(id: i64, key: &[u8], now: u64) -> (r: Result<String, AuthError>)
    ensures
        match r {
            Ok(t) => resource_minted(key@, id, now, t@),
            Err(e) => e == AuthError::EncodingFailed,
        },
        r is Ok <==> (key@.len() >= MIN_KEY_LEN && now + CAPABILITY_LIFETIME < TIMESTAMP_LIMIT),
{
    if now >= TIMESTAMP_LIMIT - CAPABILITY_LIFETIME {
        return Err(AuthError::EncodingFailed);
    }
    proof {
        lemma_claim_names_free();
    }
    let expires = now + CAPABILITY_LIFETIME;
    match hs256_sign(key, None, RESOURCE_ID_CLAIM.to_owned(), id, now, expires) {
        Ok(t) => Ok(t),
        Err(_) => Err(AuthError::EncodingFailed),
    }
}

impl PersonaJwt {
    /// Mints a capability token for this persona under `key`, issued at
    /// `now` and valid for one day.
    pub fn encode(&self, key: &[u8], now: u64) -> (r: Result<String, AuthError>)
        ensures
            match r {
                Ok(t) => resource_minted(key@, self.0, now, t@),
                Err(e) => e == AuthError::EncodingFailed,
            },
            r is Ok <==> (key@.len() >= MIN_KEY_LEN && now + CAPABILITY_LIFETIME < TIMESTAMP_LIMIT),
    {
        encode_resource(self.0, key, now)
    }
}

impl ContactJwt {
    /// Mints a capability token for this contact under `key`, issued at
    /// `now` and valid for one day.
    pub fn encode(&self, key: &[u8], now: u64) -> (r: Result<String, AuthError>)
        ensures
            match r {
                Ok(t) => resource_minted(key@, self.id, now, t@),
                Err(e) => e == AuthError::EncodingFailed,
            },
            r is Ok <==> (key@.len() >= MIN_KEY_LEN && now + CAPABILITY_LIFETIME < TIMESTAMP_LIMIT),
    {
        encode_resource(self.id, key, now)
    }
}

/// The verifier for login tokens. It holds the signing key; the revocation
/// store is shared and handed to the calls that read or change it.
pub struct LoginHandler {
    key: Vec<u8>,
}

impl View for LoginHandler {
    type V = Seq<u8>;

    closed spec fn view(&self) -> Seq<u8> {
        self.key@
    }
}

impl LoginHandler {
    /// A handler has a key that the codec accepts.
    pub open spec fn wf(&self) -> bool {
        self@.len() >= MIN_KEY_LEN
    }

    /// A handler signing with `key`, if the key is long enough.
    pub fn new(key: Vec<u8>) -> (r: Option<LoginHandler>)
        ensures
            r is Some <==> key@.len() >= MIN_KEY_LEN,
            r matches Some(h) ==> h@ == key@ && h.wf(),
    {
        if key.len() >= MIN_KEY_LEN {
            Some(LoginHandler { key })
        } else {
            None
        }
    }

    /// Verifies a presented login token, renewal window included.
    pub fn verify(&self, token: &Token, now: u64, blacklist: &RevocationStore) -> (r: Result<
        TokenClaims<LoginJwt>,
        AuthError,
    >)
        ensures
            claims_result(r) == login_verdict(self@, token.0@, now, blacklist@, true),
    {
        self.extract_with(&token.0, now, blacklist, true)
    }

    fn extract_with(
        &self,
        token: &String,
        now: u64,
        blacklist: &RevocationStore,
        renewal: bool,
    ) -> (r: Result<TokenClaims<LoginJwt>, AuthError>)
        ensures
            claims_result(r) == login_verdict(self@, token@, now, blacklist@, renewal),
    {
        let decoded = hs256_decode(self.key.as_slice(), token.as_str());
        check_login(decoded, token, now, blacklist, renewal)
    }

    /// Mints a fresh login token for `data`, issued at `now`.
    pub fn authorize(&self, data: &LoginJwt, now: u64) -> (r: Result<String, AuthError>)
        ensures
            match r {
                Ok(t) => login_minted(self@, data@, now, t@),
                Err(e) => e == AuthError::EncodingFailed,
            },
            r is Ok <==> (self.wf() && now + LOGIN_LIFETIME < TIMESTAMP_LIMIT),
    {
        data.encode(self.key.as_slice(), now)
    }

    /// Renews a login token: verifies it without the renewal window and
    /// mints a new token for the same identity.
    pub fn reauthorize(&self, token: &Token, now: u64, blacklist: &RevocationStore) -> (r: Result<
        String,
        AuthError,
    >)
        ensures
            match login_verdict(self@, token.0@, now, blacklist@, false) {
                Err(e) => r == Err::<String, AuthError>(e),
                Ok(c) => match r {
                    Ok(t) => login_minted(self@, c.custom, now, t@),
                    Err(e) => e == AuthError::EncodingFailed,
                },
            },
            r is Ok <==> (login_verdict(self@, token.0@, now, blacklist@, false) is Ok && self.wf()
                && now + LOGIN_LIFETIME < TIMESTAMP_LIMIT),
    {
        let claims = self.extract_with(&token.0, now, blacklist, false)?;
        self.authorize(&claims.custom, now)
    }

    /// Logs a token out: reads it without the renewal window and, when it
    /// is valid, revokes it until its natural expiry. The token's claims are
    /// returned; a refused token leaves the store as it was.
    pub fn logout(&self, token: &Token, now: u64, store: &mut RevocationStore) -> (r: Result<
        TokenClaims<LoginJwt>,
        AuthError,
    >)
        requires
            old(store).wf(),
        ensures
            final(store).wf(),
            claims_result(r) == login_verdict(self@, token.0@, now, old(store)@, false),
            match r {
                Ok(c) => holds_token(final(store)@, token.0@) && exists|i: int|
                    0 <= i <= old(store)@.len() && final(store)@ == old(store)@.insert(
                        i,
                        (c.expires_at, token.0@),
                    ),
                Err(_) => final(store)@ == old(store)@,
            },
    {
        let claims = self.extract_with(&token.0, now, store, false)?;
        self.blacklist(store, JwtData::new(claims.expires_at, token.0.clone()));
        Ok(claims)
    }
}

/// The verifier for persona capability tokens. Such tokens are never
/// revoked: they lapse after their one-day lifetime.
pub struct PersonaJwtHandler {
    key: Vec<u8>,
}

impl View for PersonaJwtHandler {
    type V = Seq<u8>;

    closed spec fn view(&self) -> Seq<u8> {
        self.key@
    }
}

impl PersonaJwtHandler {
    /// A handler has a key that the codec accepts.
    pub open spec fn wf(&self) -> bool {
        self@.len() >= MIN_KEY_LEN
    }

    /// A handler signing with `key`, if the key is long enough.
    pub fn new(key: Vec<u8>) -> (r: Option<PersonaJwtHandler>)
        ensures
            r is Some <==> key@.len() >= MIN_KEY_LEN,
            r matches Some(h) ==> h@ == key@ && h.wf(),
    {
        if key.len() >= MIN_KEY_LEN {
            Some(PersonaJwtHandler { key })
        } else {
            None
        }
    }

    /// Mints a capability token for the persona `data`, issued at `now`.
    pub fn encode(&self, data: &PersonaJwt, now: u64) -> (r: Result<String, AuthError>)
        ensures
            match r {
                Ok(t) => resource_minted(self@, data.0, now, t@),
                Err(e) => e == AuthError::EncodingFailed,
            },
            r is Ok <==> (self.wf() && now + CAPABILITY_LIFETIME < TIMESTAMP_LIMIT),
    {
        data.encode(self.key.as_slice(), now)
    }

    /// Verifies a presented persona capability: signature, shape, expiry.
    pub fn verify(&self, token: &String, now: u64) -> (r: Result<
        TokenClaims<PersonaJwt>,
        AuthError,
    >)
        ensures
            claims_result(r) == capability_verdict(self@, token@, now),
    {
        let decoded = hs256_decode(self.key.as_slice(), token.as_str());
        match check_capability(decoded, now) {
            Ok(c) => Ok(
                TokenClaims {
                    custom: PersonaJwt(c.custom),
                    issued_at: c.issued_at,
                    expires_at: c.expires_at,
                },
            ),
            Err(e) => Err(e),
        }
    }

    /// The grant that redeeming a persona capability writes: the redeeming
    /// user gains access to the persona's contact, `contact_id`.
    pub fn authorize(&self, user: &User, contact_id: i64) -> (r: UserContactRelation)
        ensures
            r == UserContactRelation(user.id, contact_id),
    {
        UserContactRelation(user.id, contact_id)
    }
}

/// The verifier for contact capability tokens. Such tokens are never
/// revoked: they lapse after their one-day lifetime.
pub struct ContactJwtHandler {
    key: Vec<u8>,
}

impl View for ContactJwtHandler {
    type V = Seq<u8>;

    closed spec fn view(&self) -> Seq<u8> {
        self.key@
    }
}

impl ContactJwtHandler {
    /// A handler has a key that the codec accepts.
    pub open spec fn wf(&self) -> bool {
        self@.len() >= MIN_KEY_LEN
    }

    /// A handler signing with `key`, if the key is long enough.
    pub fn new(key: Vec<u8>) -> (r: Option<ContactJwtHandler>)
        ensures
            r is Some <==> key@.len() >= MIN_KEY_LEN,
            r matches Some(h) ==> h@ == key@ && h.wf(),
    {
        if key.len() >= MIN_KEY_LEN {
            Some(ContactJwtHandler { key })
        } else {
            None
        }
    }

    /// Mints a capability token for the contact `data`, issued at `now`.
    pub fn encode(&self, data: &ContactJwt, now: u64) -> (r: Result<String, AuthError>)
        ensures
            match r {
                Ok(t) => resource_minted(self@, data.id, now, t@),
                Err(e) => e == AuthError::EncodingFailed,
            },
            r is Ok <==> (self.wf() && now + CAPABILITY_LIFETIME < TIMESTAMP_LIMIT),
    {
        data.encode(self.key.as_slice(), now)
    }

    /// Verifies a presented contact capability: signature, shape, expiry.
    pub fn verify(&self, token: &String, now: u64) -> (r: Result<
        TokenClaims<ContactJwt>,
        AuthError,
    >)
        ensures
            claims_result(r) == capability_verdict(self@, token@, now),
    {
        let decoded = hs256_decode(self.key.as_slice(), token.as_str());
        match check_capability(decoded, now) {
            Ok(c) => Ok(
                TokenClaims {
                    custom: ContactJwt { id: c.custom },
                    issued_at: c.issued_at,
                    expires_at: c.expires_at,
                },
            ),
            Err(e) => Err(e),
        }
    }

    /// The grant that redeeming a contact capability writes: the redeeming
    /// user gains access to the contact.
    pub fn authorize(&self, user: &User, contact: &Contact) -> (r: UserContactRelation)
        ensures
            r == UserContactRelation(user.id, contact.id),
    {
        UserContactRelation(user.id, contact.id)
    }
}

/// Revocation as every token kind offers it. Login tokens are revoked into
/// the shared store until they expire; capability tokens are never revoked,
/// and for them both calls leave the store alone.
pub trait Blacklist {
    /// Whether tokens of this kind can be revoked.
    spec fn revocable() -> bool;

    /// Revokes a token until its natural expiry.
    fn blacklist(&self, store: &mut RevocationStore, data: JwtData)
        requires
            old(store).wf(),
        ensures
            final(store).wf(),
            Self::revocable() ==> holds_token(final(store)@, data.token@) && exists|i: int|
                0 <= i <= old(store)@.len() && final(store)@ == old(store)@.insert(
                    i,
                    (data.expires, data.token@),
                ),
            !Self::revocable() ==> final(store)@ == old(store)@,
    ;

    /// Whether `token` has been revoked.
    fn is_blacklisted(&self, store: &RevocationStore, token: &String) -> (r: bool)
        ensures
            r == (Self::revocable() && holds_token(store@, token@)),
    ;
}

/// Reading the claims of a presented token: signature, shape, expiry and
/// revocation, as every token kind checks them (the login renewal window
/// is left to [`LoginHandler::verify`]).
pub trait JwtHandler<J: View> {
    /// The outcome of reading `token` at `now` against the revoked entries.
    spec fn extracted(&self, token: Seq<char>, now: u64, revoked: Seq<EntryModel>) -> Result<
        TokenClaims<J::V>,
        AuthError,
    >;

    fn extract(&self, token: &String, now: u64, blacklist: &RevocationStore) -> (r: Result<
        TokenClaims<J>,
        AuthError,
    >)
        ensures
            claims_result(r) == self.extracted(token@, now, blacklist@),
    ;
}

impl Blacklist for LoginHandler {
    open spec fn revocable() -> bool {
        true
    }

    fn blacklist(&self, store: &mut RevocationStore, data: JwtData) {
        store.insert(data.expires, data.token);
    }

    fn is_blacklisted(&self, store: &RevocationStore, token: &String) -> (r: bool) {
        store.contains(token)
    }
}

impl JwtHandler<LoginJwt> for LoginHandler {
    open spec fn extracted(&self, token: Seq<char>, now: u64, revoked: Seq<EntryModel>) -> Result<
        TokenClaims<LoginJwtView>,
        AuthError,
    > {
        login_verdict(self@, token, now, revoked, false)
    }

    fn extract(&self, token: &String, now: u64, blacklist: &RevocationStore) -> (r: Result<
        TokenClaims<LoginJwt>,
        AuthError,
    >) {
        self.extract_with(token, now, blacklist, false)
    }
}

impl Blacklist for PersonaJwtHandler {
    open spec fn revocable() -> bool {
        false
    }

    fn blacklist(&self, store: &mut RevocationStore, data: JwtData) {
    }

    fn is_blacklisted(&self, store: &RevocationStore, token: &String) -> (r: bool) {
        false
    }
}

impl JwtHandler<PersonaJwt> for PersonaJwtHandler {
    open spec fn extracted(&self, token: Seq<char>, now: u64, revoked: Seq<EntryModel>) -> Result<
        TokenClaims<i64>,
        AuthError,
    > {
        capability_verdict(self@, token, now)
    }

    fn extract(&self, token: &String, now: u64, blacklist: &RevocationStore) -> (r: Result<
        TokenClaims<PersonaJwt>,
        AuthError,
    >) {
        self.verify(token, now)
    }
}

impl Blacklist for ContactJwtHandler {
    open spec fn revocable() -> bool {
        false
    }

    fn blacklist(&self, store: &mut RevocationStore, data: JwtData) {
    }

    fn is_blacklisted(&self, store: &RevocationStore, token: &String) -> (r: bool) {
        false
    }
}

impl JwtHandler<ContactJwt> for ContactJwtHandler {
    open spec fn extracted(&self, token: Seq<char>, now: u64, revoked: Seq<EntryModel>) -> Result<
        TokenClaims<i64>,
        AuthError,
    > {
        capability_verdict(self@, token, now)
    }

    fn extract(&self, token: &String, now: u64, blacklist: &RevocationStore) -> (r: Result<
        TokenClaims<ContactJwt>,
        AuthError,
    >) {
        self.verify(token, now)
    }
}

/// The login claims that `token` decodes to under `key`, if any.
pub open spec fn decoded_login(key: Seq<u8>, token: Seq<char>) -> Option<TokenClaims<LoginJwtView>> {
    match hs256_decoded(key, token) {
        Ok(w) => login_of_wire(w),
        Err(_) => None,
    }
}

/// A login token verifies, at the instant it was minted, to the identity
/// it was minted for, with a full two-hour lifetime (unless that very token
/// string is already revoked).
pub proof fn lemma_login_round_trip(
    key: Seq<u8>,
    id: LoginJwtView,
    now: u64,
    token: Seq<char>,
    revoked: Seq<EntryModel>,
)
    requires
        login_minted(key, id, now, token),
        !holds_token(revoked, token),
    ensures
        login_verdict(key, token, now, revoked, true) == Ok::<
            TokenClaims<LoginJwtView>,
            AuthError,
        >(TokenClaims { custom: id, issued_at: now, expires_at: (now + LOGIN_LIFETIME) as u64 }),
{
}

/// Minting is deterministic: two tokens minted under one key for one
/// identity at the same instant are the same string.
pub proof fn lemma_mint_deterministic(
    key: Seq<u8>,
    id: LoginJwtView,
    now: u64,
    t1: Seq<char>,
    t2: Seq<char>,
)
    requires
        login_minted(key, id, now, t1),
        login_minted(key, id, now, t2),
    ensures
        t1 == t2,
{
}

/// Revocation is per token, not per identity: after the token minted at
/// `t0` is revoked, a token minted for the same identity at another instant
/// `t1` verifies at `t1`, whatever other entries the store holds for the
/// first token.
pub proof fn lemma_fresh_login_after_logout(
    key: Seq<u8>,
    id: LoginJwtView,
    t0: u64,
    first: Seq<char>,
    t1: u64,
    second: Seq<char>,
    store: Seq<EntryModel>,
)
    requires
        login_minted(key, id, t0, first),
        login_minted(key, id, t1, second),
        t0 != t1,
        forall|i: int| 0 <= i < store.len() ==> store[i].1 == first,
    ensures
        second != first,
        login_verdict(key, second, t1, store, true) == Ok::<TokenClaims<LoginJwtView>, AuthError>(
            TokenClaims { custom: id, issued_at: t1, expires_at: (t1 + LOGIN_LIFETIME) as u64 },
        ),
{
    if second == first {
        assert(login_wire(id, t0, (t0 + LOGIN_LIFETIME) as u64).issued_at == Some(t0));
    }
    lemma_login_round_trip(key, id, t1, second, store);
}

/// A capability token verifies, at the instant it was minted, to the
/// resource it was minted for.
pub proof fn lemma_capability_round_trip(key: Seq<u8>, id: i64, now: u64, token: Seq<char>)
    requires
        resource_minted(key, id, now, token),
    ensures
        capability_verdict(key, token, now) == Ok::<TokenClaims<i64>, AuthError>(
            TokenClaims { custom: id, issued_at: now, expires_at: (now + CAPABILITY_LIFETIME) as u64 },
        ),
{
}

/// Once a login token has been revoked, every verification of it is
/// refused as `Revoked` for as long as it has lifetime left, renewal window
/// or not.
pub proof fn lemma_revoked_token_refused(
    key: Seq<u8>,
    token: Seq<char>,
    c: TokenClaims<LoginJwtView>,
    now: u64,
    store: Seq<EntryModel>,
    expires: u64,
    i: int,
    renewal: bool,
)
    requires
        decoded_login(key, token) == Some(c),
        now <= c.expires_at,
        0 <= i <= store.len(),
    ensures
        login_verdict(key, token, now, store.insert(i, (expires, token)), renewal) == Err::<
            TokenClaims<LoginJwtView>,
            AuthError,
        >(AuthError::Revoked),
{
    assert(store.insert(i, (expires, token))[i] == (expires, token));
}

/// The renewal boundary: a valid, unrevoked login token with exactly ten
/// minutes or more left verifies; with less left, verification asks for
/// renewal.
pub proof fn lemma_renewal_boundary(
    key: Seq<u8>,
    token: Seq<char>,
    c: TokenClaims<LoginJwtView>,
    now: u64,
    revoked: Seq<EntryModel>,
)
    requires
        decoded_login(key, token) == Some(c),
        now <= c.expires_at,
        !holds_token(revoked, token),
    ensures
        c.expires_at - now < RENEWAL_WINDOW ==> login_verdict(key, token, now, revoked, true)
            == Err::<TokenClaims<LoginJwtView>, AuthError>(AuthError::RenewalRequired),
        c.expires_at - now >= RENEWAL_WINDOW ==> login_verdict(key, token, now, revoked, true)
            == Ok::<TokenClaims<LoginJwtView>, AuthError>(c),
        login_verdict(key, token, now, revoked, false) == Ok::<
            TokenClaims<LoginJwtView>,
            AuthError,
        >(c),
{
}

/// A token whose authentication tag does not match is refused as
/// `SignatureInvalid`, never as expired and never accepted, whatever the
/// clock and the revocation store hold.
pub proof fn lemma_bad_tag_refused(
    key: Seq<u8>,
    token: Seq<char>,
    now: u64,
    revoked: Seq<EntryModel>,
    renewal: bool,
)
    requires
        hs256_decoded(key, token) == Err::<WireClaimsView, CodecError>(CodecError::SignatureInvalid),
    ensures
        login_verdict(key, token, now, revoked, renewal) == Err::<
            TokenClaims<LoginJwtView>,
            AuthError,
        >(AuthError::SignatureInvalid),
        capability_verdict(key, token, now) == Err::<TokenClaims<i64>, AuthError>(
            AuthError::SignatureInvalid,
        ),
{
}

/// A capability token lapses with its lifetime: once more than a day has
/// passed since it was minted, redeeming it is refused as `Expired`, though
/// it was never revoked.
pub proof fn lemma_capability_lapses(key: Seq<u8>, id: i64, minted_at: u64, now: u64, token: Seq<char>)
    requires
        resource_minted(key, id, minted_at, token),
        now > minted_at + CAPABILITY_LIFETIME,
    ensures
        capability_verdict(key, token, now) == Err::<TokenClaims<i64>, AuthError>(
            AuthError::Expired,
        ),
{
}

} // verus!

use contacts::claims::{
    AuthError, LoginJwt, PersonaJwt, ContactJwt, Token, CAPABILITY_LIFETIME, LOGIN_LIFETIME,
    RENEWAL_WINDOW,
};
use contacts::codec::{CodecError, WireClaims, TIMESTAMP_LIMIT};
use contacts::db::contact::Contact;
use contacts::db::contact::{UserContactRelation, Visibility};
use contacts::db::user::User;
use contacts::revocation::{JwtData, RevocationStore};
use contacts::verification::{
    check_capability, check_login, Blacklist, ContactJwtHandler, JwtHandler, LoginHandler,
    PersonaJwtHandler,
};

const T0: u64 = 1_700_000_000;

fn key() -> Vec<u8> {
    b"0123456789abcdef0123456789abcdef".to_vec()
}

fn login() -> LoginHandler {
    LoginHandler::new(key()).unwrap()
}

fn alice() -> LoginJwt {
    LoginJwt::new("alice".to_string(), 7)
}

fn user(id: i64) -> User {
    User {
        id,
        username: "bob".to_string(),
        email: "bob@example.org".to_string(),
        password: "x".to_string(),
        level: 0,
    }
}

#[test]
fn login_round_trip() {
    let h = login();
    let store = RevocationStore::new();
    let t = h.authorize(&alice(), T0).unwrap();
    let c = h.verify(&Token(t), T0, &store).unwrap();
    assert_eq!(c.custom.username, "alice");
    assert_eq!(c.custom.user_id, 7);
    assert_eq!(c.issued_at, T0);
    assert_eq!(c.expires_at, T0 + LOGIN_LIFETIME);
}

#[test]
fn login_logout_scenario() {
    let h = login();
    let mut store = RevocationStore::new();
    let t = h.authorize(&alice(), T0).unwrap();
    let c = h.verify(&Token(t.clone()), T0, &store).unwrap();
    assert_eq!(c.custom.user_id, 7);
    h.blacklist(&mut store, JwtData::new_from_claims(c, t.clone()));
    assert!(h.is_blacklisted(&store, &t));
    assert_eq!(h.verify(&Token(t.clone()), T0 + 1, &store).err(), Some(AuthError::Revoked));
    let fresh = h.authorize(&alice(), T0 + 1).unwrap();
    assert_ne!(fresh, t);
    let c2 = h.verify(&Token(fresh), T0 + 1, &store).unwrap();
    assert_eq!(c2.custom.user_id, 7);
}

#[test]
fn revoked_regardless_of_lifetime_left() {
    let h = login();
    let mut store = RevocationStore::new();
    let t = h.authorize(&alice(), T0).unwrap();
    h.blacklist(&mut store, JwtData::new(T0 + LOGIN_LIFETIME, t.clone()));
    for now in [T0, T0 + 60, T0 + LOGIN_LIFETIME - RENEWAL_WINDOW + 1, T0 + LOGIN_LIFETIME] {
        assert_eq!(h.verify(&Token(t.clone()), now, &store).err(), Some(AuthError::Revoked));
        assert_eq!(h.extract(&t, now, &store).err(), Some(AuthError::Revoked));
    }
    assert_eq!(h.reauthorize(&Token(t.clone()), T0, &store), Err(AuthError::Revoked));
}

#[test]
fn purge_evicts_expired_prefix() {
    let mut store = RevocationStore::new();
    store.insert(T0 + 100, "b".to_string());
    store.insert(T0, "a".to_string());
    store.insert(T0 + 100, "c".to_string());
    store.insert(T0 + 50, "d".to_string());
    store.purge_expired(T0);
    assert_eq!(store.len(), 4);
    store.purge_expired(T0 + 1);
    assert!(!store.contains(&"a".to_string()));
    assert!(store.contains(&"d".to_string()));
    assert_eq!(store.len(), 3);
    store.purge_expired(T0 + 100);
    assert!(!store.contains(&"d".to_string()));
    assert!(store.contains(&"b".to_string()));
    assert!(store.contains(&"c".to_string()));
    store.purge_expired(T0 + 101);
    assert_eq!(store.len(), 0);
}

#[test]
fn revoke_twice() {
    let h = login();
    let mut store = RevocationStore::new();
    h.blacklist(&mut store, JwtData::new(T0, "tok".to_string()));
    h.blacklist(&mut store, JwtData::new(T0, "tok".to_string()));
    assert!(store.contains(&"tok".to_string()));
    assert_eq!(store.len(), 2);
    store.purge_expired(T0 + 1);
    assert!(!store.contains(&"tok".to_string()));
}

#[test]
fn clear_forgets_revocations() {
    let mut store = RevocationStore::new();
    store.insert(T0, "tok".to_string());
    store.clear();
    assert_eq!(store.len(), 0);
    assert!(!store.contains(&"tok".to_string()));
}

#[test]
fn renewal_boundary() {
    let h = login();
    let store = RevocationStore::new();
    let t = Token(h.authorize(&alice(), T0).unwrap());
    let exp = T0 + LOGIN_LIFETIME;
    assert!(h.verify(&t, exp - RENEWAL_WINDOW - 1, &store).is_ok());
    assert!(h.verify(&t, exp - RENEWAL_WINDOW, &store).is_ok());
    assert_eq!(h.verify(&t, exp - RENEWAL_WINDOW + 1, &store).err(), Some(AuthError::RenewalRequired));
    assert_eq!(h.verify(&t, exp, &store).err(), Some(AuthError::RenewalRequired));
    assert_eq!(h.verify(&t, exp + 1, &store).err(), Some(AuthError::Expired));
}

#[test]
fn reauthorize_inside_renewal_window() {
    let h = login();
    let store = RevocationStore::new();
    let t = Token(h.authorize(&alice(), T0).unwrap());
    let now = T0 + LOGIN_LIFETIME - 60;
    assert_eq!(h.verify(&t, now, &store).err(), Some(AuthError::RenewalRequired));
    let renewed = h.reauthorize(&t, now, &store).unwrap();
    let c = h.verify(&Token(renewed), now, &store).unwrap();
    assert_eq!(c.custom.username, "alice");
    assert_eq!(c.expires_at, now + LOGIN_LIFETIME);
    assert_eq!(h.reauthorize(&t, T0 + LOGIN_LIFETIME + 1, &store), Err(AuthError::Expired));
}

#[test]
fn tampered_signature_refused() {
    let h = login();
    let store = RevocationStore::new();
    let t = h.authorize(&alice(), T0).unwrap();
    let sig_start = t.rfind('.').unwrap() + 1;
    let mut bytes = t.clone().into_bytes();
    let i = sig_start + 3;
    bytes[i] = if bytes[i] == b'A' { b'B' } else { b'A' };
    let forged = String::from_utf8(bytes).unwrap();
    for now in [T0, T0 + LOGIN_LIFETIME + 10_000] {
        assert_eq!(h.verify(&Token(forged.clone()), now, &store).err(), Some(AuthError::SignatureInvalid));
    }
}

#[test]
fn other_key_refused() {
    let store = RevocationStore::new();
    let t = login().authorize(&alice(), T0).unwrap();
    let other = LoginHandler::new(b"another key of some length".to_vec()).unwrap();
    assert_eq!(other.verify(&Token(t), T0, &store).err(), Some(AuthError::SignatureInvalid));
}

#[test]
fn garbage_is_malformed() {
    let h = login();
    let store = RevocationStore::new();
    assert_eq!(h.verify(&Token("not a token".to_string()), T0, &store).err(), Some(AuthError::Malformed));
    assert_eq!(h.verify(&Token("a.b.c".to_string()), T0, &store).err(), Some(AuthError::Malformed));
}

#[test]
fn short_keys_refused() {
    assert!(LoginHandler::new(b"abcd".to_vec()).is_none());
    assert!(PersonaJwtHandler::new(b"abcd".to_vec()).is_none());
    assert!(ContactJwtHandler::new(b"0123456789a".to_vec()).is_none());
    assert!(ContactJwtHandler::new(b"0123456789ab".to_vec()).is_some());
}

#[test]
fn encoding_refuses_unrepresentable_expiry() {
    let h = login();
    assert_eq!(h.authorize(&alice(), TIMESTAMP_LIMIT - LOGIN_LIFETIME), Err(AuthError::EncodingFailed));
    assert!(h.authorize(&alice(), TIMESTAMP_LIMIT - LOGIN_LIFETIME - 1).is_ok());
    assert_eq!(
        PersonaJwt(1).encode(&key(), TIMESTAMP_LIMIT - CAPABILITY_LIFETIME),
        Err(AuthError::EncodingFailed)
    );
}

#[test]
fn persona_capability_lapses_after_a_day() {
    let h = PersonaJwtHandler::new(key()).unwrap();
    let mut store = RevocationStore::new();
    let t = h.encode(&PersonaJwt(42), T0).unwrap();
    let c = h.verify(&t, T0 + 3600).unwrap();
    assert_eq!(c.custom, PersonaJwt(42));
    assert_eq!(c.expires_at, T0 + CAPABILITY_LIFETIME);
    assert_eq!(h.verify(&t, T0 + 25 * 3600).err(), Some(AuthError::Expired));
    assert_eq!(h.extract(&t, T0 + 25 * 3600, &store).err(), Some(AuthError::Expired));
    h.blacklist(&mut store, JwtData::new(T0 + CAPABILITY_LIFETIME, t.clone()));
    assert_eq!(store.len(), 0);
    assert!(!h.is_blacklisted(&store, &t));
    assert!(h.extract(&t, T0, &store).is_ok());
}

#[test]
fn contact_capability_grants_access() {
    let h = ContactJwtHandler::new(key()).unwrap();
    let t = h.encode(&ContactJwt { id: 5 }, T0).unwrap();
    let c = h.verify(&t, T0).unwrap();
    assert_eq!(c.custom.id, 5);
    let contact = Contact::new(5, "Carol".to_string(), None, Visibility::Public, 3);
    assert_eq!(h.authorize(&user(9), &contact), UserContactRelation(9, 5));
    assert_eq!(h.verify(&t, T0 + CAPABILITY_LIFETIME + 1).err(), Some(AuthError::Expired));
    let p = PersonaJwtHandler::new(key()).unwrap();
    assert_eq!(p.authorize(&user(9), 11), UserContactRelation(9, 11));
}

#[test]
fn login_token_is_not_a_capability() {
    let store = RevocationStore::new();
    let t = login().authorize(&alice(), T0).unwrap();
    let p = PersonaJwtHandler::new(key()).unwrap();
    assert_eq!(p.verify(&t, T0).err(), Some(AuthError::Malformed));
    let cap = p.encode(&PersonaJwt(42), T0).unwrap();
    assert_eq!(login().verify(&Token(cap), T0, &store).err(), Some(AuthError::Malformed));
}

fn wire(fields: Vec<(String, i64)>, subject: Option<&str>, exp: Option<u64>) -> WireClaims {
    WireClaims {
        subject: subject.map(|s| s.to_string()),
        fields,
        issued_at: Some(T0),
        expires_at: exp,
    }
}

#[test]
fn check_login_on_decoded_claims() {
    let store = RevocationStore::new();
    let tok = "t".to_string();
    let ok = check_login(Ok(wire(vec![("user_id".to_string(), 3)], Some("dan"), Some(T0 + 700))), &tok, T0, &store, true).unwrap();
    assert_eq!(ok.custom.username, "dan");
    assert_eq!(ok.custom.user_id, 3);
    assert_eq!(
        check_login(Ok(wire(vec![("user_id".to_string(), 3)], Some("dan"), Some(T0 + 500))), &tok, T0, &store, true).err(),
        Some(AuthError::RenewalRequired)
    );
    assert!(check_login(Ok(wire(vec![("user_id".to_string(), 3)], Some("dan"), Some(T0 + 500))), &tok, T0, &store, false).is_ok());
    assert_eq!(
        check_login(Ok(wire(vec![("user_id".to_string(), 3)], Some("dan"), None)), &tok, T0, &store, true).err(),
        Some(AuthError::Malformed)
    );
    assert_eq!(
        check_login(Ok(wire(vec![("uid".to_string(), 3)], Some("dan"), Some(T0 + 700))), &tok, T0, &store, true).err(),
        Some(AuthError::Malformed)
    );
    assert_eq!(
        check_login(Ok(wire(vec![("user_id".to_string(), 3)], None, Some(T0 + 700))), &tok, T0, &store, true).err(),
        Some(AuthError::Malformed)
    );
    assert_eq!(check_login(Err(CodecError::SignatureInvalid), &tok, T0, &store, true).err(), Some(AuthError::SignatureInvalid));
    assert_eq!(check_login(Err(CodecError::Malformed), &tok, T0, &store, true).err(), Some(AuthError::Malformed));
    assert_eq!(
        check_login(Ok(wire(vec![("user_id".to_string(), 3)], Some("dan"), Some(T0 - 1))), &tok, T0, &store, true).err(),
        Some(AuthError::Expired)
    );
}

#[test]
fn check_capability_on_decoded_claims() {
    assert_eq!(check_capability(Ok(wire(vec![("id".to_string(), 42)], None, Some(T0))), T0).unwrap().custom, 42);
    assert_eq!(check_capability(Ok(wire(vec![("id".to_string(), 42)], None, Some(T0))), T0 + 1).err(), Some(AuthError::Expired));
    assert_eq!(check_capability(Ok(wire(vec![("id".to_string(), 42)], Some("x"), Some(T0))), T0).err(), Some(AuthError::Malformed));
    assert_eq!(check_capability(Ok(wire(vec![], None, Some(T0))), T0).err(), Some(AuthError::Malformed));
    assert_eq!(check_capability(Err(CodecError::WeakKey), T0).err(), Some(AuthError::SignatureInvalid));
}

#[test]
fn login_identity_equality_is_by_username() {
    assert!(LoginJwt::new("alice".to_string(), 7) == LoginJwt::new("alice".to_string(), 8));
    assert!(LoginJwt::new("alice".to_string(), 7) != LoginJwt::new("bob".to_string(), 7));
    let from_user = LoginJwt::from(user(4));
    assert_eq!(from_user.username, "bob");
    assert_eq!(from_user.user_id, 4);
}

#[test]
fn revocation_entries_compare_by_expiry() {
    assert!(JwtData::new(5, "a".to_string()) == JwtData::new(5, "b".to_string()));
    assert!(JwtData::new(5, "a".to_string()) != JwtData::new(6, "a".to_string()));
}

#[test]
fn logout_revokes_only_valid_tokens() {
    let h = login();
    let mut store = RevocationStore::new();
    let t = Token(h.authorize(&alice(), T0).unwrap());
    let c = h.logout(&t, T0 + 10, &mut store).unwrap();
    assert_eq!(c.custom.username, "alice");
    assert!(store.contains(&t.0));
    assert_eq!(store.len(), 1);
    assert_eq!(h.verify(&t, T0 + 20, &store).err(), Some(AuthError::Revoked));
    assert_eq!(h.logout(&t, T0 + 20, &mut store).err(), Some(AuthError::Revoked));
    assert_eq!(h.logout(&Token("junk".to_string()), T0, &mut store).err(), Some(AuthError::Malformed));
    assert_eq!(store.len(), 1);
}

#[test]
fn minting_is_deterministic() {
    let h = login();
    assert_eq!(h.authorize(&alice(), T0), h.authorize(&alice(), T0));
    assert_ne!(h.authorize(&alice(), T0), h.authorize(&alice(), T0 + 1));
}

#[test]
fn very_long_tokens_round_trip() {
    let h = login();
    let store = RevocationStore::new();
    let name = "x".repeat(1_200_000);
    let t = h.authorize(&LoginJwt::new(name.clone(), 9), T0).unwrap();
    assert!(t.len() > 1_000_000);
    let c = h.verify(&Token(t), T0, &store).unwrap();
    assert_eq!(c.custom.username, name);
    assert_eq!(c.custom.user_id, 9);
}

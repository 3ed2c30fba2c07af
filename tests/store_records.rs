use auth0_session::records::{session_key, user_key};
use auth0_session::sessions::{
    create_session, get_or_create_user, session_lookup_key, session_owner, user_from_record,
};
use auth0_session::{Auth0JWTPayload, AuthError, Session, User};

fn token_claims(user_id: &str, email: &str, exp: i64) -> Auth0JWTPayload {
    Auth0JWTPayload {
        email: email.to_string(),
        user_id: user_id.to_string(),
        exp,
        iss: "https://example.auth/".to_string(),
        aud: "client123".to_string(),
    }
}

#[test]
fn keys_are_namespaced() {
    assert_eq!(user_key("auth0|42"), "users/auth0|42");
    assert_eq!(session_key("abc"), "sessions/abc");
    assert_ne!(user_key("x"), session_key("x"));
}

#[test]
fn user_record_round_trips() {
    let u = User { user_id: "auth0|42".to_string(), email: "ada@example.org".to_string() };
    let bytes = u.encode().unwrap();
    assert_eq!(User::decode(&bytes).unwrap(), u);
}

#[test]
fn session_record_round_trips() {
    let s = Session { user_id: "auth0|42".to_string(), expires: -5, raw_jwt: vec![1, 2, 3, 0] };
    let bytes = s.encode().unwrap();
    assert_eq!(Session::decode(&bytes).unwrap(), s);
}

#[test]
fn undecodable_user_bytes_are_an_error() {
    let r = User::decode(&[1, 2]);
    assert_eq!(
        r.unwrap_err(),
        AuthError::DeserializationError { name: "user_bytes".to_string() }
    );
}

#[test]
fn undecodable_session_bytes_are_an_error() {
    let r = Session::decode(&[9]);
    assert_eq!(
        r.unwrap_err(),
        AuthError::DeserializationError { name: "session_bytes".to_string() }
    );
}

#[test]
fn first_lookup_creates_the_user() {
    let (u, write) = get_or_create_user(None, &token_claims("u1", "one@x", 10)).unwrap();
    assert_eq!(u, User { user_id: "u1".to_string(), email: "one@x".to_string() });
    let bytes = write.unwrap();
    assert_eq!(User::decode(&bytes).unwrap(), u);
}

#[test]
fn second_lookup_keeps_the_first_email() {
    let (first, write) = get_or_create_user(None, &token_claims("u1", "one@x", 10)).unwrap();
    let stored = write.unwrap();
    let (second, again) =
        get_or_create_user(Some(&stored), &token_claims("u1", "two@x", 10)).unwrap();
    assert!(again.is_none());
    assert_eq!(second.user_id, first.user_id);
    assert_eq!(second.email, "one@x");
}

#[test]
fn corrupt_user_record_fails_lookup() {
    let r = get_or_create_user(Some(&[0u8]), &token_claims("u1", "one@x", 10));
    assert!(matches!(r, Err(AuthError::DeserializationError { .. })));
}

#[test]
fn session_id_is_hex_sha256_of_token() {
    let g = create_session(&"u1".to_string(), 100, "crypto-hash").unwrap();
    assert_eq!(g.session_id, "fd1afb6022cd4d47c890961c533928eacfe8219f1b2524f7fb2a61847ddf8c27");
    assert_eq!(
        g.store_key,
        "sessions/fd1afb6022cd4d47c890961c533928eacfe8219f1b2524f7fb2a61847ddf8c27"
    );
    let s = Session::decode(&g.record).unwrap();
    assert_eq!(s.user_id, "u1");
    assert_eq!(s.expires, 100);
    assert_eq!(s.raw_jwt, b"crypto-hash".to_vec());
}

#[test]
fn created_session_resolves_before_expiry() {
    let g = create_session(&"u1".to_string(), 100, "tok").unwrap();
    assert_eq!(session_owner(Some(&g.record), 99), Some("u1".to_string()));
}

#[test]
fn created_session_resolves_to_nobody_after_expiry() {
    let g = create_session(&"u1".to_string(), 100, "tok").unwrap();
    assert_eq!(session_owner(Some(&g.record), 100), None);
    assert_eq!(session_owner(Some(&g.record), 5000), None);
}

#[test]
fn missing_or_corrupt_session_resolves_to_nobody() {
    assert_eq!(session_owner(None, 0), None);
    assert_eq!(session_owner(Some(&[7u8]), 0), None);
}

#[test]
fn missing_user_record_is_not_authenticated() {
    assert_eq!(user_from_record(None), None);
    let u = User { user_id: "u1".to_string(), email: "e".to_string() };
    let bytes = u.encode().unwrap();
    assert_eq!(user_from_record(Some(&bytes)), Some(u));
}

#[test]
fn session_expiry_check() {
    let s = Session { user_id: "u".to_string(), expires: 10, raw_jwt: vec![] };
    assert!(s.expired_at(10));
    assert!(!s.expired_at(9));
    assert!(s.expired());
}

#[test]
fn session_cookie_names_its_store_key() {
    assert_eq!(session_lookup_key(None), None);
    assert_eq!(session_lookup_key(Some("ab12")), Some("sessions/ab12".to_string()));
}

#[test]
fn trailing_bytes_after_a_record_are_ignored() {
    let s = Session { user_id: "u9".to_string(), expires: 50, raw_jwt: vec![4, 5] };
    let mut bytes = s.encode().unwrap();
    bytes.extend_from_slice(&[0xff, 0xee]);
    assert_eq!(Session::decode(&bytes).unwrap(), s);
    assert_eq!(session_owner(Some(&bytes), 49), Some("u9".to_string()));
}

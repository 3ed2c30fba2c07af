use auth0_session::jwt::{decode_and_validate_jwt, issuer_url, validate_claims};
use auth0_session::{Auth0JWTPayload, AuthError};

fn payload(exp: i64, aud: &str, iss: &str) -> Auth0JWTPayload {
    Auth0JWTPayload {
        email: "ada@example.org".to_string(),
        user_id: "auth0|42".to_string(),
        exp,
        iss: iss.to_string(),
        aud: aud.to_string(),
    }
}

#[test]
fn issuer_url_wraps_domain() {
    assert_eq!(issuer_url("example.auth"), "https://example.auth/");
}

#[test]
fn valid_claims_come_back_unchanged() {
    let p = payload(2000, "client123", "https://example.auth/");
    let r = validate_claims(p, 1999, "client123", "example.auth").unwrap();
    assert_eq!(r.exp, 2000);
    assert_eq!(r.email, "ada@example.org");
    assert_eq!(r.user_id, "auth0|42");
    assert_eq!(r.aud, "client123");
    assert_eq!(r.iss, "https://example.auth/");
}

#[test]
fn expiry_in_the_past_is_expired() {
    let p = payload(1000, "other", "https://elsewhere/");
    let r = validate_claims(p, 1001, "client123", "example.auth");
    assert_eq!(r.unwrap_err(), AuthError::Expired);
}

#[test]
fn expiry_equal_to_now_is_expired() {
    let p = payload(1000, "client123", "https://example.auth/");
    let r = validate_claims(p, 1000, "client123", "example.auth");
    assert_eq!(r.unwrap_err(), AuthError::Expired);
}

#[test]
fn other_audience_is_rejected() {
    let p = payload(2000, "client999", "https://example.auth/");
    let r = validate_claims(p, 1000, "client123", "example.auth");
    assert_eq!(r.unwrap_err(), AuthError::AudienceMismatch);
}

#[test]
fn other_issuer_is_rejected() {
    let p = payload(2000, "client123", "https://example.auth");
    let r = validate_claims(p, 1000, "client123", "example.auth");
    assert_eq!(r.unwrap_err(), AuthError::IssuerMismatch);
}

#[test]
fn all_five_claims_are_needed() {
    let none = Auth0JWTPayload::from_claims(
        Some("a@b".to_string()),
        Some("u".to_string()),
        None,
        Some("i".to_string()),
        Some("a".to_string()),
    );
    assert!(none.is_none());
    let some = Auth0JWTPayload::from_claims(
        Some("a@b".to_string()),
        Some("u".to_string()),
        Some(7),
        Some("i".to_string()),
        Some("a".to_string()),
    )
    .unwrap();
    assert_eq!(some.exp, 7);
    assert_eq!(some.user_id, "u");
}

fn claims_json(with_exp: bool) -> serde_json::Value {
    let mut m = serde_json::Map::new();
    m.insert("email".to_string(), serde_json::Value::String("a@b".to_string()));
    m.insert("user_id".to_string(), serde_json::Value::String("u1".to_string()));
    if with_exp {
        m.insert("exp".to_string(), serde_json::Value::from(1234i64));
    }
    m.insert("iss".to_string(), serde_json::Value::String("https://d/".to_string()));
    m.insert("aud".to_string(), serde_json::Value::String("c".to_string()));
    serde_json::Value::Object(m)
}

#[test]
fn from_json_reads_claims() {
    let p = Auth0JWTPayload::from_json(&claims_json(true)).unwrap();
    assert_eq!(p.email, "a@b");
    assert_eq!(p.user_id, "u1");
    assert_eq!(p.exp, 1234);
    assert_eq!(p.iss, "https://d/");
    assert_eq!(p.aud, "c");
}

#[test]
fn from_json_missing_claim_is_malformed() {
    let r = Auth0JWTPayload::from_json(&claims_json(false));
    assert!(matches!(r, Err(AuthError::MalformedJWT { .. })));
}

#[test]
fn garbage_token_is_malformed() {
    let r = decode_and_validate_jwt("not a key", "a.b.c", "client123", "example.auth", 0);
    assert_eq!(
        r.unwrap_err(),
        AuthError::MalformedJWT { repr: "a.b.c".to_string() }
    );
}

#[test]
fn from_json_wrongly_typed_claim_is_malformed() {
    let mut m = serde_json::Map::new();
    m.insert("email".to_string(), serde_json::Value::String("a@b.c".to_string()));
    m.insert("user_id".to_string(), serde_json::Value::String("auth0|42".to_string()));
    m.insert("exp".to_string(), serde_json::Value::String("1700000000".to_string()));
    m.insert("iss".to_string(), serde_json::Value::String("https://example.auth/".to_string()));
    m.insert("aud".to_string(), serde_json::Value::String("client123".to_string()));
    let r = Auth0JWTPayload::from_json(&serde_json::Value::Object(m));
    assert!(matches!(r, Err(AuthError::MalformedJWT { .. })));
}

use vstd::prelude::*;

use crate::errors::AuthError;
use vstd::string::StringSliceAdditionalSpecFns;

verus! {

#[verifier::external_type_specification]
#[verifier::external_body]
pub struct ExJsonValue(serde_json::Value);

/// Whether an RS256 token is well formed and its signature verifies under a
/// PEM-encoded RSA public key.
pub uninterp spec fn rs256_accepts(token: Seq<char>, public_key_pem: Seq<char>) -> bool;

/// The text claim `claim` of the payload of a token accepted under a key:
/// `None` when it is absent or not a JSON string.
pub uninterp spec fn token_claim_text(token: Seq<char>, public_key_pem: Seq<char>, claim: Seq<char>) -> Option<Seq<char>>;

/// The integer claim `claim` of the payload of a token accepted under a key:
/// `None` when it is absent or not an integer that fits an `i64`.
pub uninterp spec fn token_claim_int(token: Seq<char>, public_key_pem: Seq<char>, claim: Seq<char>) -> Option<i64>;

/// The longest PEM key, in bytes, that openssl reads (it takes the length as
/// a C `int`).
pub const MAX_PEM_LEN: usize = 2147483647;

/// The claims of a decoded token as they were found, each absent when it is
/// missing or not of its type.
#[derive(Debug, Clone)]
pub struct TokenClaims {
    pub email: Option<String>,
    pub user_id: Option<String>,
    pub exp: Option<i64>,
    pub iss: Option<String>,
    pub aud: Option<String>,
}

pub open spec fn opt_view(o: Option<String>) -> Option<Seq<char>> {
    match o {
        Some(s) => Some(s@),
        None => None,
    }
}

/// Relies on frank_jwt::decode with RS256 and its expiry check switched off
/// (so success depends on the token and the key alone), and on
/// serde_json::Value::get, as_str and as_i64 to read the payload's claims.
/// openssl reads the key through a buffer whose length must fit a C `int`.
#[verifier::external_body]
fn decode_rs256_claims(token: &str, public_key_pem: &str) -> (r: Option<TokenClaims>)
    requires
        public_key_pem.spec_bytes().len() <= MAX_PEM_LEN,
    ensures
        r is Some <==> rs256_accepts(token@, public_key_pem@),
        r matches Some(c) ==> opt_view(c.email) == token_claim_text(token@, public_key_pem@, "email"@),
        r matches Some(c) ==> opt_view(c.user_id) == token_claim_text(token@, public_key_pem@, "user_id"@),
        r matches Some(c) ==> c.exp == token_claim_int(token@, public_key_pem@, "exp"@),
        r matches Some(c) ==> opt_view(c.iss) == token_claim_text(token@, public_key_pem@, "iss"@),
        r matches Some(c) ==> opt_view(c.aud) == token_claim_text(token@, public_key_pem@, "aud"@),
{
    let options = frank_jwt::ValidationOptions::dangerous();
    let (_, p) = frank_jwt::decode(token, &public_key_pem, frank_jwt::Algorithm::RS256, &options).ok()?;
    let text = |k: &str| p.get(k).and_then(|v| v.as_str()).map(|v| v.to_string());
    let exp = p.get("exp").and_then(|v| v.as_i64());
    Some(TokenClaims { email: text("email"), user_id: text("user_id"), exp, iss: text("iss"), aud: text("aud") })
}

/// The five claims of a token accepted under a key, when all are present:
/// (email, user_id, exp, iss, aud).
pub open spec fn token_claims(token: Seq<char>, key: Seq<char>) -> Option<(Seq<char>, Seq<char>, i64, Seq<char>, Seq<char>)> {
    match (
        token_claim_text(token, key, "email"@),
        token_claim_text(token, key, "user_id"@),
        token_claim_int(token, key, "exp"@),
        token_claim_text(token, key, "iss"@),
        token_claim_text(token, key, "aud"@),
    ) {
        (Some(e), Some(u), Some(x), Some(i), Some(a)) => Some((e, u, x, i, a)),
        _ => None,
    }
}

/// The first check that claims with expiry `exp`, audience `tok_aud` and
/// issuer `tok_iss` fail at time `now`: expiry, then audience, then issuer.
pub open spec fn claims_failure(
    exp: i64,
    tok_aud: Seq<char>,
    tok_iss: Seq<char>,
    now: i64,
    aud: Seq<char>,
    domain: Seq<char>,
) -> Option<AuthError> {
    if exp <= now {
        Some(AuthError::Expired)
    } else if tok_aud != aud {
        Some(AuthError::AudienceMismatch)
    } else if tok_iss != issuer_for(domain) {
        Some(AuthError::IssuerMismatch)
    } else {
        None
    }
}

/// The fields of a payload, in the order of `token_claims`.
pub open spec fn payload_view(p: Auth0JWTPayload) -> (Seq<char>, Seq<char>, i64, Seq<char>, Seq<char>) {
    (p.email@, p.user_id@, p.exp, p.iss@, p.aud@)
}

/// A token that cannot be checked: the key is too long for openssl, or the
/// token is malformed or its signature does not verify.
pub open spec fn token_unverified(token: Seq<char>, key: &str) -> bool {
    key.spec_bytes().len() > MAX_PEM_LEN || !rs256_accepts(token, key@)
}

/// Relies on serde_json::Value::get: the member of a JSON object under `key`.
#[verifier::external_body]
fn json_member<'a>(json: &'a serde_json::Value, key: &str) -> Option<&'a serde_json::Value> {
    json.get(key)
}

/// Relies on serde_json::Value::as_str: the text of a JSON string.
pub assume_specification[ serde_json::Value::as_str ](v: &serde_json::Value) -> Option<&str>;

/// Relies on serde_json::Value::as_i64: a JSON number that fits an `i64`.
pub assume_specification[ serde_json::Value::as_i64 ](v: &serde_json::Value) -> Option<i64>;

/// Relies on serde_json's `Debug` for `Value`: a rendering of the value,
/// kept for diagnostics.
#[verifier::external_body]
fn json_text(json: &serde_json::Value) -> String {
    format!("{:?}", json)
}

fn member_str(json: &serde_json::Value, key: &str) -> Option<String> {
    match json_member(json, key) {
        Some(v) => match v.as_str() {
            Some(s) => Some(s.to_string()),
            None => None,
        },
        None => None,
    }
}

fn member_i64(json: &serde_json::Value, key: &str) -> Option<i64> {
    match json_member(json, key) {
        Some(v) => v.as_i64(),
        None => None,
    }
}

/// The claims of an ID token that the login flow relies on.
#[derive(Debug, Clone)]
pub struct Auth0JWTPayload {
    pub email: String,
    pub user_id: String,
    pub exp: i64,
    pub iss: String,
    pub aud: String,
}

impl Auth0JWTPayload {
    /// Gathers the five claims; all of them must be present.
    pub fn from_claims(
        email: Option<String>,
        user_id: Option<String>,
        exp: Option<i64>,
        iss: Option<String>,
        aud: Option<String>,
    ) -> (r: Option<Auth0JWTPayload>)
        ensures
            r is Some <==> (email is Some && user_id is Some && exp is Some && iss is Some
                && aud is Some),
            r matches Some(p) ==> email == Some(p.email) && user_id == Some(p.user_id) && exp
                == Some(p.exp) && iss == Some(p.iss) && aud == Some(p.aud),
    {
        match (email, user_id, exp, iss, aud) {
            (Some(email), Some(user_id), Some(exp), Some(iss), Some(aud)) => Some(
                Auth0JWTPayload { email, user_id, exp, iss, aud },
            ),
            _ => None,
        }
    }

    /// Reads the claims `email`, `user_id`, `exp`, `iss` and `aud` from a
    /// decoded token payload. A claim that is absent, or not of its type
    /// (text, or an integer for `exp`), makes the payload malformed.
    pub fn from_json(json: &serde_json::Value) -> (r: Result<Auth0JWTPayload, AuthError>)
        ensures
            r matches Err(e) ==> e is MalformedJWT,
    {
        let email = member_str(json, "email");
        let user_id = member_str(json, "user_id");
        let exp = member_i64(json, "exp");
        let iss = member_str(json, "iss");
        let aud = member_str(json, "aud");
        match Self::from_claims(email, user_id, exp, iss, aud) {
            Some(p) => Ok(p),
            None => Err(AuthError::MalformedJWT { repr: json_text(json) }),
        }
    }
}

/// The issuer an ID token must name for a provider domain: `https://{domain}/`.
pub open spec fn issuer_for(domain: Seq<char>) -> Seq<char> {
    seq!['h', 't', 't', 'p', 's', ':', '/', '/'] + domain + seq!['/']
}

/// What checking the claims of a token whose signature verified yields:
/// expiry first, then audience, then issuer.
pub open spec fn claims_verdict(
    p: Auth0JWTPayload,
    now: i64,
    aud: Seq<char>,
    domain: Seq<char>,
) -> Result<Auth0JWTPayload, AuthError> {
    if p.exp <= now {
        Err(AuthError::Expired)
    } else if p.aud@ != aud {
        Err(AuthError::AudienceMismatch)
    } else if p.iss@ != issuer_for(domain) {
        Err(AuthError::IssuerMismatch)
    } else {
        Ok(p)
    }
}

/// A verified token whose five claims are present, whose expiry lies after
/// `now` and whose audience and issuer match fails no check: validation
/// returns its claims unchanged.
pub proof fn lemma_valid_token_accepted(token: Seq<char>, key: Seq<char>, now: i64, aud: Seq<char>, domain: Seq<char>)
    requires
        token_claims(token, key) matches Some(c) && now < c.2 && c.4 == aud && c.3 == issuer_for(
            domain,
        ),
    ensures
        token_claims(token, key) matches Some(c) && claims_failure(c.2, c.4, c.3, now, aud, domain)
            is None,
{
}

/// A verified token whose five claims are present and whose expiry is not
/// after `now` is rejected as expired, whatever its audience and issuer.
pub proof fn lemma_expired_token_rejected(token: Seq<char>, key: Seq<char>, now: i64, aud: Seq<char>, domain: Seq<char>)
    requires
        token_claims(token, key) matches Some(c) && c.2 <= now,
    ensures
        token_claims(token, key) matches Some(c) && claims_failure(c.2, c.4, c.3, now, aud, domain)
            == Some(AuthError::Expired),
{
}

/// Builds `https://{domain}/`.
pub fn issuer_url(domain: &str) -> (r: String)
    ensures
        r@ == issuer_for(domain@),
{
    proof {
        reveal_strlit("https://");
        reveal_strlit("/");
    }
    let r = String::from_str("https://");
    let r = r.concat(domain);
    let r = r.concat("/");
    assert(r@ =~= issuer_for(domain@));
    r
}

/// Checks the claims of a token whose signature has already been verified,
/// against the time `now` (epoch seconds), the expected audience and the
/// provider domain.
pub fn validate_claims(payload: Auth0JWTPayload, now: i64, aud: &str, auth0_domain: &str) -> (r:
    Result<Auth0JWTPayload, AuthError>)
    ensures
        r == claims_verdict(payload, now, aud@, auth0_domain@),
{
    if payload.exp <= now {
        return Err(AuthError::Expired);
    }
    let expected_aud = String::from_str(aud);
    if payload.aud != expected_aud {
        return Err(AuthError::AudienceMismatch);
    }
    let expected_iss = issuer_url(auth0_domain);
    if payload.iss != expected_iss {
        return Err(AuthError::IssuerMismatch);
    }
    Ok(payload)
}

/// Decodes an ID token, verifies its RS256 signature with the provider's PEM
/// public key, reads its claims, and checks them at time `now`: signature
/// first, then the presence of the claims, expiry, audience and issuer.
pub fn decode_and_validate_jwt(pub_key: &str, jwt: &str, aud: &str, auth0_domain: &str, now: i64) -> (r:
    Result<Auth0JWTPayload, AuthError>)
    ensures
        token_unverified(jwt@, pub_key) ==> (r matches Err(AuthError::MalformedJWT { repr })
            && repr@ == jwt@),
        !token_unverified(jwt@, pub_key) && token_claims(jwt@, pub_key@) is None ==> r is Err
            && (r matches Err(e) && e is MalformedJWT),
        !token_unverified(jwt@, pub_key) ==> (token_claims(jwt@, pub_key@) matches Some(c) ==> match
            claims_failure(c.2, c.4, c.3, now, aud@, auth0_domain@) {
            Some(e) => r == Err::<Auth0JWTPayload, AuthError>(e),
            None => r matches Ok(p) && payload_view(p) == c,
        }),
{
    if pub_key.as_bytes().len() > MAX_PEM_LEN {
        return Err(AuthError::MalformedJWT { repr: jwt.to_string() });
    }
    let claims = match decode_rs256_claims(jwt, pub_key) {
        Some(c) => c,
        None => {
            return Err(AuthError::MalformedJWT { repr: jwt.to_string() });
        },
    };
    proof {
        reveal_strlit("email");
        reveal_strlit("user_id");
        reveal_strlit("exp");
        reveal_strlit("iss");
        reveal_strlit("aud");
    }
    let payload = match Auth0JWTPayload::from_claims(
        claims.email,
        claims.user_id,
        claims.exp,
        claims.iss,
        claims.aud,
    ) {
        Some(p) => p,
        None => {
            return Err(AuthError::MalformedJWT { repr: jwt.to_string() });
        },
    };
    validate_claims(payload, now, aud, auth0_domain)
}

} // verus!

use vstd::prelude::*;

use crate::errors::AuthError;
use crate::jwt::{
    claims_failure, decode_and_validate_jwt, payload_view, token_claims, token_unverified,
    Auth0JWTPayload,
};
use crate::records::{
    holds_user_record, session_key_of, session_record_bytes, sha256_hex, user_record_bytes, SessionGrant, User,
};
use crate::sessions::{create_session, get_or_create_user, opt_bytes, user_lookup_owes};
use vstd::string::StringSliceAdditionalSpecFns;

verus! {

/// The outcome of a failed step of the login flow, as the serving boundary
/// reports it to the browser: no detail of the failure is given.
#[derive(Debug, Clone, Copy, PartialEq, Eq, Structural)]
pub enum HttpStatus {
    BadRequest,
    Unauthorized,
    Forbidden,
    InternalServerError,
}

/// The provider's settings for this client. The client secret is confidential.
pub struct AuthSettings {
    pub client_id: String,
    pub client_secret: String,
    pub redirect_uri: String,
    pub auth0_domain: String,
}

/// The body of the code-for-token exchange.
pub struct TokenRequest {
    pub grant_type: String,
    pub client_id: String,
    pub client_secret: String,
    pub code: String,
    pub redirect_uri: String,
}

/// The provider's answer to the code-for-token exchange.
pub struct TokenResponse {
    pub access_token: String,
    pub expires_in: u32,
    pub id_token: String,
    pub token_type: String,
}

/// What a successful callback hands to the serving boundary: the user, the
/// user record to write when the user is new, and the session to open.
pub struct LoginGrant {
    pub user: User,
    pub user_record: Option<Vec<u8>>,
    pub session: SessionGrant,
}

/// The length of the CSRF state string.
pub const STATE_LEN: usize = 30;

/// `c` is an ASCII letter or digit.
pub open spec fn is_alphanumeric(c: char) -> bool {
    ('a' <= c && c <= 'z') || ('A' <= c && c <= 'Z') || ('0' <= c && c <= '9')
}

/// The percent-encoding of `s` for use inside a URI.
pub uninterp spec fn percent_encoded(s: Seq<char>) -> Seq<char>;

/// Relies on rocket::http::RawStr::percent_encode: the text with the
/// characters that may not stand in a URI component percent-encoded.
#[verifier::external_body]
fn percent_encode(s: &str) -> (r: String)
    ensures
        r@ == percent_encoded(s@),
{
    rocket::http::RawStr::new(s).percent_encode().to_string()
}

/// Relies on rand's Alphanumeric::sample_string with the thread-local
/// generator: `len` characters drawn uniformly from a-z, A-Z and 0-9.
#[verifier::external_body]
fn random_alphanumeric(len: usize) -> (r: String)
    ensures
        r@.len() == len,
        forall|i: int| 0 <= i < r@.len() ==> is_alphanumeric(#[trigger] r@[i]),
{
    rand::distributions::DistString::sample_string(
        &rand::distributions::Alphanumeric,
        &mut rand::thread_rng(),
        len,
    )
}

/// A fresh, unpredictable CSRF state string of `STATE_LEN` letters and digits.
pub fn random_state_string() -> (r: String)
    ensures
        r@.len() == STATE_LEN,
        forall|i: int| 0 <= i < r@.len() ==> is_alphanumeric(#[trigger] r@[i]),
{
    random_alphanumeric(STATE_LEN)
}

pub open spec fn https_prefix() -> Seq<char> {
    seq!['h', 't', 't', 'p', 's', ':', '/', '/']
}

/// `https://{domain}/authorize?response_type=code&client_id={client_id}&redirect_uri={redirect}&scope=openid%20profile&state={state}`
pub open spec fn authorize_url_of(
    domain: Seq<char>,
    client_id: Seq<char>,
    redirect: Seq<char>,
    state: Seq<char>,
) -> Seq<char> {
    https_prefix() + domain + "/authorize?response_type=code&client_id="@ + client_id
        + "&redirect_uri="@ + redirect + "&scope=openid%20profile&state="@ + state
}

/// `https://{domain}/oauth/token`
pub open spec fn token_endpoint_of(domain: Seq<char>) -> Seq<char> {
    https_prefix() + domain + "/oauth/token"@
}

/// `https://{domain}/pem`
pub open spec fn cert_endpoint_of(domain: Seq<char>) -> Seq<char> {
    https_prefix() + domain + "/pem"@
}

/// The outcome of comparing the callback's `state` with the state cookie.
pub open spec fn state_verdict(state: Seq<char>, cookie: Option<Seq<char>>) -> Result<(), HttpStatus> {
    match cookie {
        None => Err(HttpStatus::BadRequest),
        Some(c) => if c == state {
            Ok(())
        } else {
            Err(HttpStatus::Forbidden)
        },
    }
}

/// The callback goes on only when the state cookie is present and equal to
/// the `state` parameter: a missing cookie is a bad request, any other value
/// is forbidden.
pub proof fn lemma_callback_state_outcomes(state: Seq<char>, cookie: Option<Seq<char>>)
    ensures
        cookie is None ==> state_verdict(state, cookie) == Err::<(), HttpStatus>(
            HttpStatus::BadRequest,
        ),
        cookie matches Some(c) && c != state ==> state_verdict(state, cookie) == Err::<
            (),
            HttpStatus,
        >(HttpStatus::Forbidden),
        state_verdict(state, cookie) is Ok <==> cookie == Some(state),
{
}

pub open spec fn opt_str(o: Option<&str>) -> Option<Seq<char>> {
    match o {
        Some(s) => Some(s@),
        None => None,
    }
}

impl AuthSettings {
    pub fn new(client_id: String, client_secret: String, redirect_uri: String, auth0_domain: String) -> (r:
        AuthSettings)
        ensures
            r.client_id == client_id,
            r.client_secret == client_secret,
            r.redirect_uri == redirect_uri,
            r.auth0_domain == auth0_domain,
    {
        AuthSettings { client_id, client_secret, redirect_uri, auth0_domain }
    }

    /// The provider's authorize URL that the login redirect points at, with
    /// the redirect URI percent-encoded and `state` embedded.
    pub fn authorize_endpoint_url(&self, state: &str) -> (r: String)
        ensures
            r@ == authorize_url_of(
                self.auth0_domain@,
                self.client_id@,
                percent_encoded(self.redirect_uri@),
                state@,
            ),
    {
        proof {
            reveal_strlit("https://");
            reveal_strlit("/authorize?response_type=code&client_id=");
            reveal_strlit("&redirect_uri=");
            reveal_strlit("&scope=openid%20profile&state=");
        }
        let redirect = percent_encode(self.redirect_uri.as_str());
        let r = String::from_str("https://").concat(self.auth0_domain.as_str());
        let r = r.concat("/authorize?response_type=code&client_id=");
        let r = r.concat(self.client_id.as_str());
        let r = r.concat("&redirect_uri=");
        let r = r.concat(redirect.as_str());
        let r = r.concat("&scope=openid%20profile&state=");
        let r = r.concat(state);
        assert(r@ =~= authorize_url_of(
            self.auth0_domain@,
            self.client_id@,
            percent_encoded(self.redirect_uri@),
            state@,
        ));
        r
    }

    /// The provider's token endpoint.
    pub fn token_endpoint(&self) -> (r: String)
        ensures
            r@ == token_endpoint_of(self.auth0_domain@),
    {
        proof {
            reveal_strlit("https://");
            reveal_strlit("/oauth/token");
        }
        let r = String::from_str("https://").concat(self.auth0_domain.as_str());
        let r = r.concat("/oauth/token");
        assert(r@ =~= token_endpoint_of(self.auth0_domain@));
        r
    }

    /// The provider's signing-certificate endpoint.
    pub fn cert_endpoint(&self) -> (r: String)
        ensures
            r@ == cert_endpoint_of(self.auth0_domain@),
    {
        proof {
            reveal_strlit("https://");
            reveal_strlit("/pem");
        }
        let r = String::from_str("https://").concat(self.auth0_domain.as_str());
        let r = r.concat("/pem");
        assert(r@ =~= cert_endpoint_of(self.auth0_domain@));
        r
    }

    /// The exchange of an authorization code for tokens, with this client's
    /// credentials.
    pub fn token_request(&self, code: &str) -> (r: TokenRequest)
        ensures
            r.grant_type@ == "authorization_code"@,
            r.client_id@ == self.client_id@,
            r.client_secret@ == self.client_secret@,
            r.code@ == code@,
            r.redirect_uri@ == self.redirect_uri@,
    {
        proof {
            reveal_strlit("authorization_code");
        }
        TokenRequest {
            grant_type: String::from_str("authorization_code"),
            client_id: self.client_id.clone(),
            client_secret: self.client_secret.clone(),
            code: String::from_str(code),
            redirect_uri: self.redirect_uri.clone(),
        }
    }
}

/// Compares the callback's `state` with the state cookie: a missing cookie is
/// a bad request, a different value is forbidden.
pub fn check_callback_state(state: &str, cookie_state: Option<&str>) -> (r: Result<(), HttpStatus>)
    ensures
        r == state_verdict(state@, opt_str(cookie_state)),
{
    match cookie_state {
        None => Err(HttpStatus::BadRequest),
        Some(c) => {
            let expected = String::from_str(c);
            let given = String::from_str(state);
            if given == expected {
                Ok(())
            } else {
                Err(HttpStatus::Forbidden)
            }
        },
    }
}

/// Validates the ID token of the exchange at time `now` against the stored
/// PEM public key and this client's settings. A token that is malformed, does
/// not verify, or lacks a claim is a bad request; an expired token or one for
/// another audience or issuer is unauthorized.
pub fn validate_login_token(settings: &AuthSettings, pub_key: &str, id_token: &str, now: i64) -> (r:
    Result<Auth0JWTPayload, HttpStatus>)
    ensures
        token_unverified(id_token@, pub_key) ==> r == Err::<Auth0JWTPayload, HttpStatus>(
            HttpStatus::BadRequest,
        ),
        !token_unverified(id_token@, pub_key) && token_claims(id_token@, pub_key@) is None ==> r
            == Err::<Auth0JWTPayload, HttpStatus>(HttpStatus::BadRequest),
        !token_unverified(id_token@, pub_key) ==> (token_claims(id_token@, pub_key@) matches Some(c)
            ==> match claims_failure(
            c.2,
            c.4,
            c.3,
            now,
            settings.client_id@,
            settings.auth0_domain@,
        ) {
            Some(_) => r == Err::<Auth0JWTPayload, HttpStatus>(HttpStatus::Unauthorized),
            None => r matches Ok(p) && payload_view(p) == c,
        }),
{
    match decode_and_validate_jwt(
        pub_key,
        id_token,
        settings.client_id.as_str(),
        settings.auth0_domain.as_str(),
        now,
    ) {
        Ok(p) => Ok(p),
        Err(AuthError::MalformedJWT { .. }) => Err(HttpStatus::BadRequest),
        Err(_) => Err(HttpStatus::Unauthorized),
    }
}

/// The status reported when the user lookup fails: a malformed token is a bad
/// request, anything else an internal error.
pub fn user_error_status(e: &AuthError) -> (r: HttpStatus)
    ensures
        r == (if e is MalformedJWT {
            HttpStatus::BadRequest
        } else {
            HttpStatus::InternalServerError
        }),
{
    match e {
        AuthError::MalformedJWT { .. } => HttpStatus::BadRequest,
        _ => HttpStatus::InternalServerError,
    }
}

/// Completes a login on a validated token: finds or makes the user (`stored`
/// is what the store holds under the user's key) and opens a session that
/// expires when the token does.
pub fn finish_login(stored: Option<&[u8]>, payload: &Auth0JWTPayload, id_token: &str) -> (r: Result<
    LoginGrant,
    HttpStatus,
>)
    ensures
        r matches Ok(g) ==> user_lookup_owes(
            opt_bytes(stored),
            payload.user_id@,
            payload.email@,
            (g.user.user_id@, g.user.email@),
        ),
        r matches Ok(g) ==> (stored is None <==> g.user_record is Some),
        r matches Ok(g) ==> (g.user_record matches Some(b) ==> b@ == user_record_bytes(
            g.user.user_id@,
            g.user.email@,
        )),
        r matches Ok(g) ==> g.session.session_id@ == sha256_hex(id_token.spec_bytes())
            && g.session.store_key@ == session_key_of(g.session.session_id@) && g.session.record@
            == session_record_bytes(g.user.user_id@, payload.exp, id_token.spec_bytes()),
        stored is None ==> r is Ok,
        stored matches Some(b) ==> (r is Ok <==> holds_user_record(b@)),
        r matches Err(s) ==> s == HttpStatus::InternalServerError,
{
    let (user, user_record) = match get_or_create_user(stored, payload) {
        Ok(found) => found,
        Err(e) => {
            return Err(user_error_status(&e));
        },
    };
    let session = match create_session(&user.user_id, payload.exp, id_token) {
        Ok(g) => g,
        Err(_) => {
            return Err(HttpStatus::InternalServerError);
        },
    };
    Ok(LoginGrant { user, user_record, session })
}

} // verus!

use vstd::prelude::*;

use crate::errors::AuthError;
use crate::jwt::Auth0JWTPayload;
use crate::records::{
    holds_session_record, holds_user_record, is_prefix_of, session_key, session_key_of, session_owner_at, session_record_bytes, sha256_hex,
    sha256_hex_digest, user_record_bytes, Session, SessionGrant, User,
};
use vstd::slice::slice_to_vec;
use vstd::string::StringSliceAdditionalSpecFns;

verus! {

/// What a user lookup owes for `user_id` and `email`, given what the store
/// held under the user's key: a new record of the two when it held nothing,
/// else the fields of the record that the stored bytes encode.
pub open spec fn user_lookup_owes(
    stored: Option<Seq<u8>>,
    user_id: Seq<char>,
    email: Seq<char>,
    found: (Seq<char>, Seq<char>),
) -> bool {
    match stored {
        None => found == (user_id, email),
        Some(b) => forall|id: Seq<char>, em: Seq<char>|
            is_prefix_of(#[trigger] user_record_bytes(id, em), b) ==> found == (id, em),
    }
}

/// What resolving a session owes at time `now`, given what the store held
/// under the session's key: nobody when it held nothing, else whoever the
/// encoded session authenticates at `now`, and nobody when they encode no
/// session.
pub open spec fn session_lookup_owes(stored: Option<Seq<u8>>, now: i64, owner: Option<Seq<char>>) -> bool {
    match stored {
        None => owner is None,
        Some(b) => {
            &&& forall|id: Seq<char>, expires: i64, raw: Seq<u8>|
                is_prefix_of(#[trigger] session_record_bytes(id, expires, raw), b) ==> owner
                    == session_owner_at(id, expires, now)
            &&& !holds_session_record(b) ==> owner is None
        },
    }
}

pub open spec fn opt_bytes(o: Option<&[u8]>) -> Option<Seq<u8>> {
    match o {
        Some(b) => Some(b@),
        None => None,
    }
}

pub open spec fn opt_text(o: Option<String>) -> Option<Seq<char>> {
    match o {
        Some(s) => Some(s@),
        None => None,
    }
}

/// Finds the user of a validated token, or makes one. `stored` is what the
/// store holds under `user_key(&jwt.user_id)`. A stored record is returned as
/// it is, without taking the token's email (the first write wins); a new
/// record is returned with its encoding, which the caller writes under that
/// key.
pub fn get_or_create_user(stored: Option<&[u8]>, jwt: &Auth0JWTPayload) -> (r: Result<
    (User, Option<Vec<u8>>),
    AuthError,
>)
    ensures
        stored is None ==> r is Ok,
        stored matches Some(b) ==> (r is Ok <==> holds_user_record(b@)),
        r matches Ok((u, _)) ==> user_lookup_owes(
            opt_bytes(stored),
            jwt.user_id@,
            jwt.email@,
            (u.user_id@, u.email@),
        ),
        r matches Ok((u, w)) ==> (stored is None <==> w is Some),
        r matches Ok((u, Some(b))) ==> b@ == user_record_bytes(u.user_id@, u.email@),
        r matches Err(e) ==> e is DeserializationError,
{
    match stored {
        None => {
            let user = User { user_id: jwt.user_id.clone(), email: jwt.email.clone() };
            let encoded = user.encode()?;
            Ok((user, Some(encoded)))
        },
        Some(bytes) => {
            let user = User::decode(bytes)?;
            Ok((user, None))
        },
    }
}

/// Opens a session for `user_id` on a validated ID token that expires at
/// `expires`. The session's identifier is the hex SHA-256 digest of the
/// token; it is the cookie value, and the record is written under
/// `session_key` of it.
pub fn create_session(user_id: &String, expires: i64, raw_jwt: &str) -> (r: Result<
    SessionGrant,
    AuthError,
>)
    ensures
        r matches Ok(g) && g.session_id@ == sha256_hex(raw_jwt.spec_bytes()) && g.store_key@
            == session_key_of(g.session_id@) && g.record@ == session_record_bytes(
            user_id@,
            expires,
            raw_jwt.spec_bytes(),
        ),
{
    let bytes = raw_jwt.as_bytes();
    let session_id = sha256_hex_digest(bytes);
    let session = Session { user_id: user_id.clone(), expires, raw_jwt: slice_to_vec(bytes) };
    let record = session.encode()?;
    let store_key = session_key(session_id.as_str());
    Ok(SessionGrant { session_id, store_key, record })
}

/// The store key a request's session cookie points at; a request without
/// the cookie is not authenticated and has no key to look up.
pub fn session_lookup_key(session_cookie: Option<&str>) -> (r: Option<String>)
    ensures
        session_cookie is None <==> r is None,
        session_cookie matches Some(c) ==> (r matches Some(k) && k@ == session_key_of(c@)),
{
    match session_cookie {
        Some(c) => Some(session_key(c)),
        None => None,
    }
}

/// Whom a session authenticates at time `now`. `stored` is what the store
/// holds under the session's key. A missing, expired or undecodable session
/// authenticates nobody.
pub fn session_owner(stored: Option<&[u8]>, now: i64) -> (r: Option<String>)
    ensures
        session_lookup_owes(opt_bytes(stored), now, opt_text(r)),
{
    match stored {
        None => None,
        Some(bytes) => match Session::decode(bytes) {
            Ok(session) => {
                if session.expired_at(now) {
                    None
                } else {
                    Some(session.user_id)
                }
            },
            Err(_) => None,
        },
    }
}

/// The user whose record the store holds, if it holds one that decodes. A
/// session whose user is missing authenticates nobody.
pub fn user_from_record(stored: Option<&[u8]>) -> (r: Option<User>)
    ensures
        stored is None ==> r is None,
        stored matches Some(b) ==> forall|id: Seq<char>, em: Seq<char>|
            is_prefix_of(#[trigger] user_record_bytes(id, em), b@) ==> (r matches Some(u)
                && u.user_id@ == id && u.email@ == em),
        stored matches Some(b) ==> (r is None <==> !holds_user_record(b@)),
{
    match stored {
        None => None,
        Some(bytes) => match User::decode(bytes) {
            Ok(u) => Some(u),
            Err(_) => None,
        },
    }
}

/// A user lookup is idempotent: once the record that a first lookup created
/// is stored, a second lookup for the same user returns the same identifier
/// and the first email, whatever email it brings.
pub proof fn lemma_user_lookup_first_write_wins(
    user_id: Seq<char>,
    email1: Seq<char>,
    email2: Seq<char>,
    first: (Seq<char>, Seq<char>),
    second: (Seq<char>, Seq<char>),
)
    requires
        user_lookup_owes(None, user_id, email1, first),
        user_lookup_owes(Some(user_record_bytes(first.0, first.1)), user_id, email2, second),
    ensures
        second == first,
        second.0 == user_id,
        second.1 == email1,
{
    let b = user_record_bytes(first.0, first.1);
    assert(b.subrange(0, b.len() as int) =~= b);
    assert(is_prefix_of(b, b));
}

/// A session authenticates its user from its creation until it expires: the
/// record that creation writes resolves to the session's user before
/// `expires`, and to nobody from `expires` on.
pub proof fn lemma_created_session_resolves(
    user_id: Seq<char>,
    expires: i64,
    raw_jwt: Seq<u8>,
    now: i64,
    owner: Option<Seq<char>>,
)
    requires
        session_lookup_owes(Some(session_record_bytes(user_id, expires, raw_jwt)), now, owner),
    ensures
        now < expires ==> owner == Some(user_id),
        expires <= now ==> owner is None,
{
    let b = session_record_bytes(user_id, expires, raw_jwt);
    assert(b.subrange(0, b.len() as int) =~= b);
    assert(is_prefix_of(b, b));
}

} // verus!

use vstd::prelude::*;

use crate::errors::AuthError;

verus! {

/// A local account, keyed in the store by the provider's user identifier.
#[derive(Debug, Clone, PartialEq, Eq)]
pub struct User {
    pub user_id: String,
    pub email: String,
}

/// A login session; `expires` is the originating token's `exp` claim.
#[derive(Debug, Clone, PartialEq, Eq)]
pub struct Session {
    pub user_id: String,
    pub expires: i64,
    pub raw_jwt: Vec<u8>,
}

/// What a new session hands to the serving boundary: the cookie value, the
/// store key to write under and the encoded record to write.
#[derive(Debug, Clone)]
pub struct SessionGrant {
    pub session_id: String,
    pub store_key: String,
    pub record: Vec<u8>,
}

/// The bytes that encode a user record with these fields.
pub uninterp spec fn user_record_bytes(user_id: Seq<char>, email: Seq<char>) -> Seq<u8>;

/// The bytes that encode a session record with these fields.
pub uninterp spec fn session_record_bytes(user_id: Seq<char>, expires: i64, raw_jwt: Seq<u8>) -> Seq<u8>;

/// The lowercase hex text of the SHA-256 digest of `data`.
pub uninterp spec fn sha256_hex(data: Seq<u8>) -> Seq<char>;

/// `p` is a prefix of `b`.
pub open spec fn is_prefix_of(p: Seq<u8>, b: Seq<u8>) -> bool {
    p.len() <= b.len() && b.subrange(0, p.len() as int) == p
}

/// A decoding of `bytes`: it gives back the fields of the user record whose
/// encoding begins `bytes` (what follows is ignored), and gives back nothing
/// when no encoding does.
pub open spec fn pair_decoded_from(r: Option<(String, String)>, bytes: Seq<u8>) -> bool {
    &&& forall|id: Seq<char>, email: Seq<char>|
        is_prefix_of(#[trigger] user_record_bytes(id, email), bytes) ==> (r matches Some(p) && p.0@
            == id && p.1@ == email)
    &&& r matches Some(p) ==> is_prefix_of(user_record_bytes(p.0@, p.1@), bytes)
}

/// A decoding of `bytes`: it gives back the fields of the session record
/// whose encoding begins `bytes` (what follows is ignored), and gives back
/// nothing when no encoding does.
pub open spec fn triple_decoded_from(r: Option<(String, i64, Vec<u8>)>, bytes: Seq<u8>) -> bool {
    &&& forall|id: Seq<char>, expires: i64, raw: Seq<u8>|
        is_prefix_of(#[trigger] session_record_bytes(id, expires, raw), bytes) ==> (r matches Some(
            t,
        ) && t.0@ == id && t.1 == expires && t.2@ == raw)
    &&& r matches Some(t) ==> is_prefix_of(session_record_bytes(t.0@, t.1, t.2@), bytes)
}

/// Bytes that begin with the encoding of some user record.
pub open spec fn holds_user_record(bytes: Seq<u8>) -> bool {
    exists|id: Seq<char>, email: Seq<char>| is_prefix_of(#[trigger] user_record_bytes(id, email), bytes)
}

/// Bytes that begin with the encoding of some session record.
pub open spec fn holds_session_record(bytes: Seq<u8>) -> bool {
    exists|id: Seq<char>, expires: i64, raw: Seq<u8>|
        is_prefix_of(#[trigger] session_record_bytes(id, expires, raw), bytes)
}

/// A user record read back from the bytes written for it has the fields it
/// was written with.
pub proof fn lemma_user_record_round_trip(
    user_id: Seq<char>,
    email: Seq<char>,
    decoded: Option<(String, String)>,
)
    requires
        pair_decoded_from(decoded, user_record_bytes(user_id, email)),
    ensures
        decoded matches Some(p) && p.0@ == user_id && p.1@ == email,
{
    let b = user_record_bytes(user_id, email);
    assert(b.subrange(0, b.len() as int) =~= b);
    assert(is_prefix_of(b, b));
}

/// A session record read back from the bytes written for it has the fields
/// it was written with.
pub proof fn lemma_session_record_round_trip(
    user_id: Seq<char>,
    expires: i64,
    raw_jwt: Seq<u8>,
    decoded: Option<(String, i64, Vec<u8>)>,
)
    requires
        triple_decoded_from(decoded, session_record_bytes(user_id, expires, raw_jwt)),
    ensures
        decoded matches Some(t) && t.0@ == user_id && t.1 == expires && t.2@ == raw_jwt,
{
    let b = session_record_bytes(user_id, expires, raw_jwt);
    assert(b.subrange(0, b.len() as int) =~= b);
    assert(is_prefix_of(b, b));
}

/// Relies on bincode::serialize of the pair (user_id, email), the layout
/// bincode gives a record of these two fields. Its size limit is unbounded
/// and strings always serialize, so it does not fail.
#[verifier::external_body]
fn encode_user_fields(user_id: &String, email: &String) -> (r: Option<Vec<u8>>)
    ensures
        r is Some,
        r matches Some(b) ==> b@ == user_record_bytes(user_id@, email@),
{
    bincode::serialize(&(user_id, email)).ok()
}

/// Relies on bincode::deserialize into (String, String), which allows
/// trailing bytes: what bincode::serialize wrote for such a pair decodes back
/// to that pair, and a pair is only read from bytes that begin with its
/// encoding.
#[verifier::external_body]
fn decode_user_fields(bytes: &[u8]) -> (r: Option<(String, String)>)
    ensures
        pair_decoded_from(r, bytes@),
{
    bincode::deserialize::<(String, String)>(bytes).ok()
}

/// Relies on bincode::serialize of the triple (user_id, expires, raw_jwt),
/// the layout bincode gives a record of these three fields. Its size limit
/// is unbounded and these types always serialize, so it does not fail.
#[verifier::external_body]
fn encode_session_fields(user_id: &String, expires: i64, raw_jwt: &Vec<u8>) -> (r: Option<Vec<u8>>)
    ensures
        r is Some,
        r matches Some(b) ==> b@ == session_record_bytes(user_id@, expires, raw_jwt@),
{
    bincode::serialize(&(user_id, expires, raw_jwt)).ok()
}

/// Relies on bincode::deserialize into (String, i64, Vec<u8>), which allows
/// trailing bytes: what bincode::serialize wrote for such a triple decodes
/// back to that triple, and a triple is only read from bytes that begin with
/// its encoding.
#[verifier::external_body]
fn decode_session_fields(bytes: &[u8]) -> (r: Option<(String, i64, Vec<u8>)>)
    ensures
        triple_decoded_from(r, bytes@),
{
    bincode::deserialize::<(String, i64, Vec<u8>)>(bytes).ok()
}

/// Relies on crypto_hash::hex_digest with SHA-256: the hex text of the
/// digest, a function of the bytes alone.
#[verifier::external_body]
pub(crate) fn sha256_hex_digest(data: &[u8]) -> (r: String)
    ensures
        r@ == sha256_hex(data@),
{
    crypto_hash::hex_digest(crypto_hash::Algorithm::SHA256, data)
}

/// Relies on chrono::Utc::now and DateTime::timestamp: the current time in
/// seconds since the epoch. Nothing is known of the value it returns.
#[verifier::external_body]
pub(crate) fn current_timestamp() -> i64 {
    chrono::Utc::now().timestamp()
}

pub open spec fn users_prefix() -> Seq<char> {
    seq!['u', 's', 'e', 'r', 's', '/']
}

pub open spec fn sessions_prefix() -> Seq<char> {
    seq!['s', 'e', 's', 's', 'i', 'o', 'n', 's', '/']
}

/// The store key of the user record of `user_id`.
pub open spec fn user_key_of(user_id: Seq<char>) -> Seq<char> {
    users_prefix() + user_id
}

/// The store key of the session whose identifier is `session_id`.
pub open spec fn session_key_of(session_id: Seq<char>) -> Seq<char> {
    sessions_prefix() + session_id
}

/// Who a session of `user_id` that expires at `expires` authenticates at
/// time `now`: nobody once `now` has reached `expires`.
pub open spec fn session_owner_at(user_id: Seq<char>, expires: i64, now: i64) -> Option<Seq<char>> {
    if expires <= now {
        None
    } else {
        Some(user_id)
    }
}

/// Builds `users/{user_id}`.
pub fn user_key(user_id: &str) -> (r: String)
    ensures
        r@ == user_key_of(user_id@),
{
    proof {
        reveal_strlit("users/");
    }
    let r = String::from_str("users/").concat(user_id);
    assert(r@ =~= user_key_of(user_id@));
    r
}

/// Builds `sessions/{session_id}`.
pub fn session_key(session_id: &str) -> (r: String)
    ensures
        r@ == session_key_of(session_id@),
{
    proof {
        reveal_strlit("sessions/");
    }
    let r = String::from_str("sessions/").concat(session_id);
    assert(r@ =~= session_key_of(session_id@));
    r
}

/// Keys of user records and keys of sessions never collide.
pub proof fn lemma_key_namespaces_disjoint(user_id: Seq<char>, session_id: Seq<char>)
    ensures
        user_key_of(user_id) != session_key_of(session_id),
{
    assert(user_key_of(user_id)[0] != session_key_of(session_id)[0]);
}

impl User {
    /// Encodes the record for the store.
    pub fn encode(&self) -> (r: Result<Vec<u8>, AuthError>)
        ensures
            r matches Ok(b) && b@ == user_record_bytes(self.user_id@, self.email@),
    {
        match encode_user_fields(&self.user_id, &self.email) {
            Some(b) => Ok(b),
            None => {
                proof {
                    reveal_strlit("user");
                }
                Err(AuthError::SerializationError { name: String::from_str("user") })
            },
        }
    }

    /// Decodes a stored record; the bytes of any encoded record give it back.
    pub fn decode(bytes: &[u8]) -> (r: Result<User, AuthError>)
        ensures
            forall|id: Seq<char>, email: Seq<char>|
                is_prefix_of(#[trigger] user_record_bytes(id, email), bytes@) ==> (r matches Ok(u)
                    && u.user_id@ == id && u.email@ == email),
            r matches Ok(u) ==> is_prefix_of(user_record_bytes(u.user_id@, u.email@), bytes@),
            r is Err <==> !holds_user_record(bytes@),
            r matches Err(e) ==> (e matches AuthError::DeserializationError { name } && name@
                == seq!['u', 's', 'e', 'r', '_', 'b', 'y', 't', 'e', 's']),
    {
        match decode_user_fields(bytes) {
            Some(p) => Ok(User { user_id: p.0, email: p.1 }),
            None => {
                proof {
                    reveal_strlit("user_bytes");
                }
                Err(AuthError::DeserializationError { name: String::from_str("user_bytes") })
            },
        }
    }
}

impl Session {
    /// Encodes the record for the store.
    pub fn encode(&self) -> (r: Result<Vec<u8>, AuthError>)
        ensures
            r matches Ok(b) && b@ == session_record_bytes(
                self.user_id@,
                self.expires,
                self.raw_jwt@,
            ),
    {
        match encode_session_fields(&self.user_id, self.expires, &self.raw_jwt) {
            Some(b) => Ok(b),
            None => {
                proof {
                    reveal_strlit("session");
                }
                Err(AuthError::SerializationError { name: String::from_str("session") })
            },
        }
    }

    /// Decodes a stored record; the bytes of any encoded record give it back.
    pub fn decode(bytes: &[u8]) -> (r: Result<Session, AuthError>)
        ensures
            forall|id: Seq<char>, expires: i64, raw: Seq<u8>|
                is_prefix_of(#[trigger] session_record_bytes(id, expires, raw), bytes@) ==> (r matches Ok(
                    s,
                ) && s.user_id@ == id && s.expires == expires && s.raw_jwt@ == raw),
            r matches Ok(s) ==> is_prefix_of(
                session_record_bytes(s.user_id@, s.expires, s.raw_jwt@),
                bytes@,
            ),
            r is Err <==> !holds_session_record(bytes@),
            r matches Err(e) ==> (e matches AuthError::DeserializationError { name } && name@
                == seq!['s', 'e', 's', 's', 'i', 'o', 'n', '_', 'b', 'y', 't', 'e', 's']),
    {
        match decode_session_fields(bytes) {
            Some(t) => Ok(Session { user_id: t.0, expires: t.1, raw_jwt: t.2 }),
            None => {
                proof {
                    reveal_strlit("session_bytes");
                }
                Err(AuthError::DeserializationError { name: String::from_str("session_bytes") })
            },
        }
    }

    /// Whether the session has expired at time `now`.
    pub fn expired_at(&self, now: i64) -> (r: bool)
        ensures
            r == (self.expires <= now),
    {
        self.expires <= now
    }

    /// Whether the session has expired by the clock's current time.
    pub fn expired(&self) -> bool {
        self.expired_at(current_timestamp())
    }
}

} // verus!

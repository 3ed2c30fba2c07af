use vstd::prelude::*;

verus! {

/// The closed set of failures of the authentication core.
#[derive(Debug, Clone, PartialEq, Eq)]
pub enum AuthError {
    /// The token could not be decoded, its signature did not verify, or a
    /// required claim is missing.
    MalformedJWT { repr: String },
    /// The token's expiry is not in the future.
    Expired,
    /// The token was issued for another client.
    AudienceMismatch,
    /// The token was issued by another authority.
    IssuerMismatch,
    /// A record could not be encoded for the store.
    SerializationError { name: String },
    /// Stored bytes could not be decoded into a record.
    DeserializationError { name: String },
    /// A required setting is absent.
    ConfigMissing,
}

} // verus!

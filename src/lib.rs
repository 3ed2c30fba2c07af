//! Authentication and session integrity for a browser login against an
//! OpenID-Connect identity provider: ID-token validation, user and session
//! records, and the decisions of the authorization-code flow.

pub mod certs;
pub mod errors;
pub mod flow;
pub mod jwt;
pub mod records;
pub mod sessions;

pub use certs::KeyMaterial;
pub use errors::AuthError;
pub use flow::{AuthSettings, HttpStatus, LoginGrant, TokenRequest, TokenResponse};
pub use jwt::Auth0JWTPayload;
pub use records::{Session, SessionGrant, User};

//! Token authority for a dual-token (access and refresh) session scheme:
//! it finds the token of a request, checks it against a key and the
//! clock, and renews it where that is due.

pub mod authority;
pub mod claims;
pub mod errors;
pub mod jwt;
pub mod request;
pub mod rest_authority;
pub mod text;
pub mod time;
pub mod token_signer;
pub mod validate;

pub use crate::authority::{
    AccessStep, Authority, AuthorityBuilder, Authorized, EnabledSources, Plan, Reauthorization, TokenUpdate,
};
pub use crate::claims::Claims;
pub use crate::errors::{
    AuthError, AuthResult, CreationError, ErrorKind, ParseError, Rejection, ValidationError,
};
pub use crate::jwt::{Algorithm, ParsedToken};
pub use crate::request::{Field, ServiceRequest, TokenSource};
pub use crate::rest_authority::{RestAuthority, RestAuthorityBuilder};
pub use crate::time::{Clock, TimeOptions};
pub use crate::token_signer::{
    BuilderError, Cookie, CookieSigner, RequiredField, TokenSigner, TokenSignerBuilder,
};
pub use crate::validate::{validate_jwt, Presented};

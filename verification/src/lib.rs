//! OIDC building blocks for Rust services.
//!
//! Two independent halves:
//! - [`validator`] (+ [`dropshot`]): local JWT validation against a cached
//!   JWKS, for resource servers that accept bearer tokens.
//! - [`bff`]: the rules of a single sign-on stack for web services that own the
//!   login flow: session cookie, CSRF protection, `/auth/*` routes.
//!
//! Extras: [`proxy`] (forward requests to a backend with the session's bearer
//! token), [`signed_request`] (HMAC-SHA256 inter-service requests).

pub mod bff;
pub mod discovery;
pub mod dropshot;
pub mod hexadecimal;
pub mod jwt;
pub mod location;
pub mod proxy;
pub mod refresh;
pub mod signed_request;
pub mod status;
pub mod text;
pub mod timestamp;
pub mod validator;

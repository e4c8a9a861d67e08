//! Decision core of an OAuth2-style authorization server.
//!
//! The library decides, given capability backends (a client registry, a code
//! store, a token issuer), whether an authorization request is valid,
//! negotiates the granted parameters, issues a one-time authorization code,
//! exchanges that code for a bearer token, and guards resource access with an
//! issued token. Applications supply the backends and the request adapters;
//! the security-critical branching lives here, with its behaviour stated in
//! contracts.
pub mod authorizer;
pub mod backend;
pub mod encode;
pub mod grant;
pub mod error;
pub mod issuer;
pub mod registrar;
pub mod requests;
pub mod scope;
pub mod urls;

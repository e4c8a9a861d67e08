//! Structured protocol errors for the two endpoints.
use vstd::prelude::*;

verus! {

/// Error kinds surfaced to an authorization request by redirect.
#[derive(Clone, Copy, PartialEq, Eq, Structural, Debug)]
pub enum AuthorizationErrorKind {
    InvalidRequest,
    UnsupportedResponseType,
    InvalidScope,
    AccessDenied,
}

/// The protocol code for an authorization error kind.
pub open spec fn error_code(kind: AuthorizationErrorKind) -> Seq<char> {
    match kind {
        AuthorizationErrorKind::InvalidRequest => "invalid_request"@,
        AuthorizationErrorKind::UnsupportedResponseType => "unsupported_response_type"@,
        AuthorizationErrorKind::InvalidScope => "invalid_scope"@,
        AuthorizationErrorKind::AccessDenied => "access_denied"@,
    }
}

/// A structured authorization error.
#[derive(Clone, Copy, PartialEq, Eq, Structural, Debug)]
pub struct AuthorizationError {
    pub kind: AuthorizationErrorKind,
}

impl AuthorizationError {
    /// A fresh error, before classification.
    pub fn new() -> (r: AuthorizationError)
        ensures
            r.kind == AuthorizationErrorKind::InvalidRequest,
    {
        AuthorizationError { kind: AuthorizationErrorKind::InvalidRequest }
    }

    /// The protocol code of the error.
    pub fn code(&self) -> (r: String)
        ensures
            r@ == error_code(self.kind),
    {
        match self.kind {
            AuthorizationErrorKind::InvalidRequest => String::from_str("invalid_request"),
            AuthorizationErrorKind::UnsupportedResponseType => String::from_str(
                "unsupported_response_type",
            ),
            AuthorizationErrorKind::InvalidScope => String::from_str("invalid_scope"),
            AuthorizationErrorKind::AccessDenied => String::from_str("access_denied"),
        }
    }
}

/// Error kinds surfaced by the token endpoint, directly to the caller.
#[derive(Clone, Copy, PartialEq, Eq, Structural, Debug)]
pub enum AccessTokenErrorKind {
    InvalidRequest,
    InvalidClient,
    InvalidGrant,
    UnsupportedGrantType,
}

/// The protocol code for a token-endpoint error kind.
pub open spec fn token_error_code(kind: AccessTokenErrorKind) -> Seq<char> {
    match kind {
        AccessTokenErrorKind::InvalidRequest => "invalid_request"@,
        AccessTokenErrorKind::InvalidClient => "invalid_client"@,
        AccessTokenErrorKind::InvalidGrant => "invalid_grant"@,
        AccessTokenErrorKind::UnsupportedGrantType => "unsupported_grant_type"@,
    }
}

/// A structured token-endpoint error: its kind and an optional free-form
/// description.
pub struct AccessTokenError {
    pub kind: AccessTokenErrorKind,
    pub description: Option<String>,
}

impl AccessTokenError {
    /// The protocol code of the error.
    pub fn code(&self) -> (r: String)
        ensures
            r@ == token_error_code(self.kind),
    {
        match self.kind {
            AccessTokenErrorKind::InvalidRequest => String::from_str("invalid_request"),
            AccessTokenErrorKind::InvalidClient => String::from_str("invalid_client"),
            AccessTokenErrorKind::InvalidGrant => String::from_str("invalid_grant"),
            AccessTokenErrorKind::UnsupportedGrantType => String::from_str(
                "unsupported_grant_type",
            ),
        }
    }
}

} // verus!

//! Error taxonomy of the authentication subsystem.
//!
//! `NotFound`, `BadPassword` and `HashCorrupt` are deliberately conflated to
//! one externally visible outcome ("invalid credentials") so that a caller
//! cannot enumerate usernames; `HashCorrupt` stays distinguishable inside the
//! process because it signals stored-data corruption, not a bad request.

use vstd::prelude::*;

verus! {

/// Why a login attempt failed. Every variant but `TokenIssueFailed` is
/// presented to the client as the same generic credential failure.
#[derive(Clone, Copy, Debug, PartialEq, Eq, Structural)]
pub enum LoginError {
    /// The identifier resolved to no account, or the password did not match.
    InvalidCredentials,
    /// The stored password hash could not be read; surfaced to the client
    /// exactly like `InvalidCredentials`, logged distinctly by the caller.
    HashCorrupt,
    /// No token could be issued because the expiry timestamp is not
    /// representable; the one login failure that is not a credential failure.
    TokenIssueFailed,
}

/// The relational store could not be reached or timed out: retryable by the
/// caller, answered as an internal failure, never as a credential failure.
#[derive(Clone, Copy, Debug, PartialEq, Eq, Structural)]
pub struct StoreUnavailable;

/// Why a presented token was rejected. The two variants matter to clients
/// even though both map to the same unauthorized status.
#[derive(Clone, Copy, Debug, PartialEq, Eq, Structural)]
pub enum TokenError {
    /// Malformed token or bad signature.
    TokenInvalid,
    /// Valid signature, but the expiry timestamp has passed.
    TokenExpired,
}

/// Whether a login failure is shown to the client as a credential failure
/// (unauthorized) rather than an internal fault.
pub open spec fn spec_is_credential_failure(e: LoginError) -> bool {
    e is InvalidCredentials || e is HashCorrupt
}

/// A resolution failure and a wrong password collapse to one external
/// outcome: both are credential failures, indistinguishable to the client.
pub fn is_credential_failure(e: LoginError) -> (r: bool)
    ensures
        r == spec_is_credential_failure(e),
{
    match e {
        LoginError::InvalidCredentials => true,
        LoginError::HashCorrupt => true,
        LoginError::TokenIssueFailed => false,
    }
}

} // verus!

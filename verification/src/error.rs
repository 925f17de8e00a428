//! The error type of the synchronous context API.

use vstd::prelude::*;
use vstd::string::*;

verus! {

/// Failures reported by the synchronous context API.
#[derive(Debug, Clone, PartialEq, Eq)]
pub enum AuthError {
    Unauthenticated,
    Forbidden,
    MissingContext,
    MissingSession,
    ProviderFailed(String),
}

/// The human-readable text of an error.
pub open spec fn error_text(e: AuthError) -> Seq<char> {
    match e {
        AuthError::Unauthenticated => "unauthenticated"@,
        AuthError::Forbidden => "forbidden"@,
        AuthError::MissingContext => "missing auth context"@,
        AuthError::MissingSession => "missing auth session"@,
        AuthError::ProviderFailed(msg) => "provider failed: "@ + msg@,
    }
}

impl AuthError {
    /// An exact copy of this error (same variant, same message).
    pub fn duplicate(&self) -> (r: AuthError)
        ensures
            r == *self,
    {
        match self {
            AuthError::Unauthenticated => AuthError::Unauthenticated,
            AuthError::Forbidden => AuthError::Forbidden,
            AuthError::MissingContext => AuthError::MissingContext,
            AuthError::MissingSession => AuthError::MissingSession,
            AuthError::ProviderFailed(msg) => AuthError::ProviderFailed(msg.clone()),
        }
    }

    /// The text that displaying this error shows.
    pub fn message(&self) -> (s: String)
        ensures
            s@ == error_text(*self),
    {
        match self {
            AuthError::Unauthenticated => String::from_str("unauthenticated"),
            AuthError::Forbidden => String::from_str("forbidden"),
            AuthError::MissingContext => String::from_str("missing auth context"),
            AuthError::MissingSession => String::from_str("missing auth session"),
            AuthError::ProviderFailed(msg) => String::from_str("provider failed: ").concat(
                msg.as_str(),
            ),
        }
    }
}

} // verus!

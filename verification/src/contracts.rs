//! The error type shared by the request-scoped engine and its providers.
//!
//! The asynchronous provider, loader and session traits that the engine is
//! driven with are declared next to the code that awaits them; the verified
//! engine only sees the answers they give.

use vstd::prelude::*;

verus! {

/// Failures reported by the request-scoped engine and its collaborators.
#[derive(Debug, Clone, PartialEq, Eq)]
pub enum AuthError {
    MissingContext,
    ProviderFailed(String),
    LoaderFailed(String),
    SessionFailed(String),
    Unauthenticated,
    MissingSession,
    /// Someone is signed in, but no user loader is configured to load the
    /// record.
    MissingLoader,
    /// Someone is signed in, but the loader found no record for the id.
    UserNotFound,
}

impl AuthError {
    /// An exact copy of this error (same variant, same message).
    pub fn duplicate(&self) -> (r: AuthError)
        ensures
            r == *self,
    {
        match self {
            AuthError::MissingContext => AuthError::MissingContext,
            AuthError::ProviderFailed(msg) => AuthError::ProviderFailed(msg.clone()),
            AuthError::LoaderFailed(msg) => AuthError::LoaderFailed(msg.clone()),
            AuthError::SessionFailed(msg) => AuthError::SessionFailed(msg.clone()),
            AuthError::Unauthenticated => AuthError::Unauthenticated,
            AuthError::MissingSession => AuthError::MissingSession,
            AuthError::MissingLoader => AuthError::MissingLoader,
            AuthError::UserNotFound => AuthError::UserNotFound,
        }
    }
}

} // verus!

//! The error type and principal trait of the pluggable-interfaces API.
//!
//! The asynchronous interfaces of that API (context, session, credentials,
//! authorizer, policy) are declared next to the code that awaits them.

use vstd::prelude::*;

verus! {

/// Failures reported by implementations of the pluggable interfaces.
#[derive(Debug, Clone, PartialEq, Eq)]
pub enum AuthError {
    Unauthenticated,
    Forbidden,
    InvalidCredentials,
    ExpiredSession,
    MissingSession,
    StorageFailure(String),
    ProviderFailure(String),
    Internal(String),
}

/// An authenticated party with an id. Implemented by the application.
pub trait Principal: Send + Sync + 'static {
    type Id: Clone + Send + Sync + 'static;

    fn id(&self) -> Self::Id;
}

} // verus!

//! Session mutation for the synchronous context API.

use vstd::prelude::*;
use crate::authenticatable::Authenticatable;
use crate::error::AuthError;

verus! {

/// Persists or clears the signed-in user. Implemented by the application.
pub trait AuthSession<U: Authenticatable>: Send + Sync {
    fn sign_in(&self, user: &U) -> Result<(), AuthError>;

    fn sign_out(&self) -> Result<(), AuthError>;
}

/// Finds the session of the current request. Implemented by the application.
pub trait AuthSessionAccessor<U: Authenticatable> {
    fn get() -> Option<&'static dyn AuthSession<U>>;
}

} // verus!

//! Synchronous user providers for the context API.

pub mod chain;
pub mod fixed;

pub use chain::ChainProvider;
pub use fixed::FixedProvider;

use vstd::prelude::*;
use crate::authenticatable::Authenticatable;
use crate::error::AuthError;

verus! {

/// Resolves the current user. Implemented by the application (from a session
/// cookie, a token, ...): `Ok(None)` when nobody is signed in.
pub trait AuthProvider<U: Authenticatable>: Send + Sync {
    fn user(&self) -> Result<Option<U>, AuthError>;
}

} // verus!

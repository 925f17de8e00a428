//! The first decision of every request helper of the engine API.

use vstd::prelude::*;
use crate::contracts::AuthError;

verus! {

/// The engine of the current request, or `MissingContext` when none was
/// injected into the request's scope.
pub fn require_engine<E>(found: Option<E>) -> (r: Result<E, AuthError>)
    ensures
        found matches Some(e) ==> r == Ok::<E, AuthError>(e),
        found is None ==> r == Err::<E, AuthError>(AuthError::MissingContext),
{
    match found {
        Some(e) => Ok(e),
        None => Err(AuthError::MissingContext),
    }
}

} // verus!

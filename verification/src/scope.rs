//! Where the engine of the current request is found.

use vstd::prelude::*;

verus! {

/// The engine of the current request: the one provided through the
/// reactive context if there is one, else the one entered into the
/// thread-local scope.
pub fn get_engine<E>(from_context: Option<E>, from_thread: Option<E>) -> (e: Option<E>)
    ensures
        e == (if from_context is Some { from_context } else { from_thread }),
{
    match from_context {
        Some(e) => Some(e),
        None => from_thread,
    }
}

} // verus!

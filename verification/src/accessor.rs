//! Finding the context of the current request.

use vstd::prelude::*;
use crate::authenticatable::Authenticatable;
use crate::context::AuthContext;

verus! {

/// Finds the context of the current request. Implemented by the
/// application (for instance over a thread-local or a lock): `with_context`
/// lends the request's context, or `None` when there is none, to `f` for the
/// duration of the call, since a lookup caches its answer in the context.
pub trait AuthContextAccessor<U: Authenticatable> {
    fn with_context<R, F: FnOnce(Option<&mut AuthContext<U>>) -> R>(f: F) -> R;
}

} // verus!

//! Relations on lookup answers shared by the engine and the context.

use vstd::prelude::*;

verus! {

/// `b` is a copy of the lookup answer `a`: the same variant and the same
/// error, and for a present value, a clone of it.
pub open spec fn copy_of_outcome<T: Clone, E>(a: Result<Option<T>, E>, b: Result<Option<T>, E>) -> bool {
    match a {
        Ok(None) => b == Ok::<Option<T>, E>(None),
        Ok(Some(x)) => b matches Ok(Some(y)) && cloned(x, y),
        Err(e) => b == Err::<Option<T>, E>(e),
    }
}

/// `check` on a lookup answer: whether a value is present, or the failure.
pub open spec fn check_of<T, E>(answer: Result<Option<T>, E>) -> Result<bool, E> {
    match answer {
        Ok(o) => Ok(o is Some),
        Err(e) => Err(e),
    }
}

} // verus!

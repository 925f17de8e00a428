//! A provider that always answers the same user.

use vstd::prelude::*;
use super::AuthProvider;
use crate::authenticatable::Authenticatable;
use crate::error::AuthError;

verus! {

/// Always answers (a clone of) the user it holds, or nobody.
pub struct FixedProvider<U: Authenticatable>(pub Option<U>);

impl<U: Authenticatable> AuthProvider<U> for FixedProvider<U> {
    fn user(&self) -> (r: Result<Option<U>, AuthError>)
        ensures
            r matches Ok(o) && (o is Some <==> self.0 is Some),
            self.0 matches Some(u) ==> (r matches Ok(Some(v)) && cloned(u, v)),
    {
        Ok(self.0.clone())
    }
}

} // verus!

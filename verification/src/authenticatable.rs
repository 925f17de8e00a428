//! What the synchronous context API needs of a user type.

use vstd::prelude::*;

verus! {

/// A user record with an id. Implemented by the application's user type.
pub trait Authenticatable: Clone + Send + Sync + 'static {
    type Id: Clone + Send + Sync + 'static;

    fn id(&self) -> Self::Id;

    /// An optional name to show; none unless the user type says otherwise.
    fn display_name(&self) -> (name: Option<String>)
        default_ensures
            name is None,
    {
        None
    }
}

} // verus!

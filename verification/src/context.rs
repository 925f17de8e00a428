//! The synchronous, per-request authentication context: a provider and the
//! cached answer it gave.

use vstd::prelude::*;
use crate::authenticatable::Authenticatable;
use crate::error::AuthError;
use crate::outcome::{check_of, copy_of_outcome};
use crate::provider::AuthProvider;

verus! {

/// Copies a cached answer.
pub fn copy_answer<U: Clone>(a: &Result<Option<U>, AuthError>) -> (b: Result<Option<U>, AuthError>)
    ensures
        copy_of_outcome(*a, b),
{
    match a {
        Ok(None) => Ok(None),
        Ok(Some(u)) => Ok(Some(u.clone())),
        Err(e) => Err(e.duplicate()),
    }
}

/// `require` on a lookup answer: the user, else `Unauthenticated`, or the
/// failure.
pub open spec fn required_user_of<U>(a: Result<Option<U>, AuthError>) -> Result<U, AuthError> {
    match a {
        Ok(Some(u)) => Ok(u),
        Ok(None) => Err(AuthError::Unauthenticated),
        Err(e) => Err(e),
    }
}

/// The provider of one request and the answer it gave, asked at most once.
#[verifier::reject_recursive_types(U)]
#[verifier::reject_recursive_types(P)]
pub struct AuthContext<U: Authenticatable, P: AuthProvider<U> + ?Sized = dyn AuthProvider<U>> {
    provider: Box<P>,
    cache: Option<Result<Option<U>, AuthError>>,
}

impl<U: Authenticatable, P: AuthProvider<U> + ?Sized> AuthContext<U, P> {
    /// The cached answer of the provider, if it has been asked.
    pub closed spec fn cached(&self) -> Option<Result<Option<U>, AuthError>> {
        self.cache
    }

    /// The provider of this context.
    pub closed spec fn provider_of(&self) -> Box<P> {
        self.provider
    }

    /// `r` is what a lookup on this context answered, and `after` is the
    /// context after it. With an answer cached, the context is unchanged and
    /// `r` is a copy of that answer. Otherwise `r` is what the provider
    /// answered, and a copy of it is cached. The provider is kept.
    pub open spec fn answered(&self, after: Self, r: Result<Option<U>, AuthError>) -> bool {
        &&& after.provider_of() == self.provider_of()
        &&& self.cached() matches Some(v) ==> after == *self && copy_of_outcome(v, r)
        &&& self.cached() is None ==> call_ensures(P::user, (&*self.provider_of(),), r)
            && (after.cached() matches Some(c) && copy_of_outcome(r, c))
    }

    /// A context whose provider has not been asked yet.
    pub fn new(provider: Box<P>) -> (c: Self)
        ensures
            c.provider_of() == provider,
            c.cached() is None,
    {
        Self { provider, cache: None }
    }

    /// Caches (a copy of) the provider's answer and returns the answer.
    pub fn record_user(&mut self, answer: Result<Option<U>, AuthError>) -> (r: Result<Option<U>, AuthError>)
        ensures
            r == answer,
            final(self).provider_of() == old(self).provider_of(),
            final(self).cached() matches Some(c) && copy_of_outcome(answer, c),
    {
        self.cache = Some(copy_answer(&answer));
        answer
    }

    /// The current user: the cached answer, else the provider's answer, a
    /// copy of which is then cached.
    pub fn user(&mut self) -> (r: Result<Option<U>, AuthError>)
        ensures
            old(self).answered(*final(self), r),
    {
        match &self.cache {
            Some(v) => copy_answer(v),
            None => {
                let answer = self.provider.user();
                self.record_user(answer)
            },
        }
    }

    /// Whether someone is signed in.
    pub fn check(&mut self) -> (r: Result<bool, AuthError>)
        ensures
            exists|a: Result<Option<U>, AuthError>| #[trigger] old(self).answered(*final(self), a) && r == check_of(a),
    {
        match self.user() {
            Ok(o) => Ok(o.is_some()),
            Err(e) => Err(e),
        }
    }

    /// The current user, or `Unauthenticated`.
    pub fn require(&mut self) -> (r: Result<U, AuthError>)
        ensures
            exists|a: Result<Option<U>, AuthError>| #[trigger] old(self).answered(*final(self), a) && r == required_user_of(a),
    {
        match self.user() {
            Ok(Some(u)) => Ok(u),
            Ok(None) => Err(AuthError::Unauthenticated),
            Err(e) => Err(e),
        }
    }

    /// Forgets the cached answer, so that the provider is asked again.
    pub fn invalidate(&mut self) -> (r: Result<(), AuthError>)
        ensures
            final(self).provider_of() == old(self).provider_of(),
            final(self).cached() is None,
            r is Ok,
    {
        self.cache = None;
        Ok(())
    }
}

/// Law: the provider is asked at most once until the context is
/// invalidated. After two lookups in a row, the second changed nothing and
/// gave the same answer as the first as to who is signed in and any failure.
pub proof fn lemma_lookup_is_memoized<U: Authenticatable, P: AuthProvider<U> + ?Sized>(
    c0: AuthContext<U, P>,
    c1: AuthContext<U, P>,
    c2: AuthContext<U, P>,
    a1: Result<Option<U>, AuthError>,
    a2: Result<Option<U>, AuthError>,
)
    requires
        c0.answered(c1, a1),
        c1.answered(c2, a2),
    ensures
        c2 == c1,
        c2.provider_of() == c0.provider_of(),
        check_of(a2) == check_of(a1),
{
}

/// Law: an invalidated (or new) context asks its provider again. A lookup
/// on a context with nothing cached answers what the provider answered, and
/// a later lookup agrees with it and changes nothing.
pub proof fn lemma_lookup_after_invalidate<U: Authenticatable, P: AuthProvider<U> + ?Sized>(
    c1: AuthContext<U, P>,
    c2: AuthContext<U, P>,
    c3: AuthContext<U, P>,
    a2: Result<Option<U>, AuthError>,
    a3: Result<Option<U>, AuthError>,
)
    requires
        c1.cached() is None,
        c1.answered(c2, a2),
        c2.answered(c3, a3),
    ensures
        call_ensures(P::user, (&*c1.provider_of(),), a2),
        c3 == c2,
        check_of(a3) == check_of(a2),
{
}

} // verus!

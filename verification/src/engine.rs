//! The per-request authentication engine.
//!
//! The engine caches, for one request, the answer of the user-id provider and
//! the answer of the user loader. Every operation is a short sequence of
//! decisions separated by calls to those collaborators: the engine says what
//! to ask next, the caller performs the (asynchronous) call and hands the
//! answer back. The functions here are those decisions; `user_id_op`,
//! `user_op` and `session_op` describe whole operations over the answers the
//! collaborators give, and the laws at the end of the file are stated over
//! them.

use vstd::prelude::*;
use crate::contracts::AuthError;
use crate::outcome::{check_of, copy_of_outcome};

verus! {

/// Copies a cached answer.
pub fn copy_outcome<T: Clone>(a: &Result<Option<T>, AuthError>) -> (b: Result<Option<T>, AuthError>)
    ensures
        copy_of_outcome(*a, b),
{
    match a {
        Ok(None) => Ok(None),
        Ok(Some(x)) => Ok(Some(x.clone())),
        Err(e) => Err(e.duplicate()),
    }
}

/// What the caller must do next to learn the current user id.
#[derive(Debug, PartialEq, Eq)]
pub enum UserIdStep<UserId> {
    /// The answer is known (cached): return it.
    Ready(Result<Option<UserId>, AuthError>),
    /// Ask the user-id provider, then hand its answer to `finish_user_id`.
    AskProvider,
}

/// What the caller must do next to learn the current user record.
#[derive(Debug, PartialEq, Eq)]
pub enum UserStep<UserId, User> {
    /// The answer is known: return it.
    Ready(Result<Option<User>, AuthError>),
    /// Resolve the user id (as `user_id` does), then call `continue_user`.
    NeedUserId,
    /// Ask the user loader for this id, then hand its answer to `finish_user`.
    LoadUser(UserId),
}

/// What the caller must do next to require the user record.
#[derive(Debug, PartialEq, Eq)]
pub enum RequireStep<User> {
    /// The answer is known: return it.
    Ready(Result<User, AuthError>),
    /// Nobody was answered: resolve the user id (as `user_id` does), then
    /// call `finish_require` to tell why.
    NeedUserId,
}

/// The session call that a sign-in or sign-out asks the caller to make,
/// once, before handing the session's answer to `finish_session_change`.
#[derive(Debug, PartialEq, Eq)]
pub enum SessionAction<UserId> {
    /// Ask the session to sign in this user id.
    SignIn(UserId),
    /// Ask the session to sign out.
    SignOut,
}

/// `b` is a copy of the step `a`.
pub open spec fn copy_of_step<UserId, User: Clone>(
    a: UserStep<UserId, User>,
    b: UserStep<UserId, User>,
) -> bool {
    match a {
        UserStep::Ready(x) => b matches UserStep::Ready(y) && copy_of_outcome(x, y),
        UserStep::NeedUserId => b is NeedUserId,
        UserStep::LoadUser(u) => b == UserStep::<UserId, User>::LoadUser(u),
    }
}

struct Cache<UserId, User> {
    user_id: Option<Result<Option<UserId>, AuthError>>,
    user: Option<Result<Option<User>, AuthError>>,
}

impl<UserId, User> Cache<UserId, User> {
    fn empty() -> (c: Self)
        ensures
            c.user_id is None,
            c.user is None,
    {
        Cache { user_id: None, user: None }
    }
}

/// The authentication engine of one request: the user-id provider `P`, an
/// optional user loader `L`, an optional session `S`, and the cache of their
/// answers.
pub struct AuthEngine<UserId, User, P, L, S> {
    user_id_provider: P,
    user_loader: Option<L>,
    session: Option<S>,
    cache: Cache<UserId, User>,
}

/// `require_user_id` on a user-id answer.
pub open spec fn required_of<T>(answer: Result<Option<T>, AuthError>) -> Result<T, AuthError> {
    match answer {
        Ok(Some(v)) => Ok(v),
        Ok(None) => Err(AuthError::Unauthenticated),
        Err(e) => Err(e),
    }
}

/// What `require` does with the answer of `user`: a record is the result,
/// a failure is passed on, "nobody" needs the user id to tell why.
pub open spec fn require_first_step<User>(user: Result<Option<User>, AuthError>) -> RequireStep<User> {
    match user {
        Ok(Some(u)) => RequireStep::Ready(Ok(u)),
        Ok(None) => RequireStep::NeedUserId,
        Err(e) => RequireStep::Ready(Err(e)),
    }
}

impl<UserId, User, P, L, S> AuthEngine<UserId, User, P, L, S> {
    /// The cached answer of the user-id provider, if any.
    pub closed spec fn cached_user_id(self) -> Option<Result<Option<UserId>, AuthError>> {
        self.cache.user_id
    }

    /// The cached answer of the user lookup, if any.
    pub closed spec fn cached_user(self) -> Option<Result<Option<User>, AuthError>> {
        self.cache.user
    }

    /// The user-id provider the engine was built with.
    pub closed spec fn provider(self) -> P {
        self.user_id_provider
    }

    /// The user loader the engine was built with.
    pub closed spec fn loader(self) -> Option<L> {
        self.user_loader
    }

    /// The session the engine was built with.
    pub closed spec fn session_handle(self) -> Option<S> {
        self.session
    }

    pub open spec fn has_loader(self) -> bool {
        self.loader() is Some
    }

    pub open spec fn has_session(self) -> bool {
        self.session_handle() is Some
    }

    /// `self` and `other` were built with the same provider, loader and
    /// session.
    pub open spec fn same_setup(self, other: Self) -> bool {
        &&& self.provider() == other.provider()
        &&& self.loader() == other.loader()
        &&& self.session_handle() == other.session_handle()
    }

    /// The same engine with the user-id cache set to `v`.
    pub closed spec fn with_user_id(self, v: Option<Result<Option<UserId>, AuthError>>) -> Self {
        AuthEngine { cache: Cache { user_id: v, user: self.cache.user }, ..self }
    }

    /// The same engine with the user cache set to `v`.
    pub closed spec fn with_user(self, v: Option<Result<Option<User>, AuthError>>) -> Self {
        AuthEngine { cache: Cache { user_id: self.cache.user_id, user: v }, ..self }
    }

    /// The same engine with both caches empty.
    pub open spec fn invalidated(self) -> Self {
        self.with_user_id(None).with_user(None)
    }

    /// What `with_user_id`, `with_user` change and keep.
    pub proof fn lemma_updates(self, a: Option<Result<Option<UserId>, AuthError>>, b: Option<Result<Option<User>, AuthError>>)
        ensures
            self.with_user_id(a).cached_user_id() == a,
            self.with_user_id(a).cached_user() == self.cached_user(),
            self.with_user_id(a).provider() == self.provider(),
            self.with_user_id(a).loader() == self.loader(),
            self.with_user_id(a).session_handle() == self.session_handle(),
            self.with_user(b).cached_user() == b,
            self.with_user(b).cached_user_id() == self.cached_user_id(),
            self.with_user(b).provider() == self.provider(),
            self.with_user(b).loader() == self.loader(),
            self.with_user(b).session_handle() == self.session_handle(),
            self.with_user_id(self.cached_user_id()) == self,
            self.with_user(self.cached_user()) == self,
    {
    }

    /// The whole `user_id` operation, where `answer` is what the provider
    /// says if it is asked: the cached answer if there is one, else the
    /// provider's answer, which is then cached. (The engine caches a clone
    /// of the answer; in these descriptions of whole operations a clone is
    /// taken for the value it was cloned from.)
    pub open spec fn user_id_op(self, answer: Result<Option<UserId>, AuthError>) -> (Self, Result<
        Option<UserId>,
        AuthError,
    >) {
        match self.cached_user_id() {
            Some(v) => (self, v),
            None => (self.with_user_id(Some(answer)), answer),
        }
    }

    /// The first decision of `user`.
    pub open spec fn begin_user_spec(self) -> (Self, UserStep<UserId, User>) {
        match self.cached_user() {
            Some(v) => (self, UserStep::Ready(v)),
            None => if self.has_loader() {
                (self, UserStep::NeedUserId)
            } else {
                (self.with_user(Some(Ok(None))), UserStep::Ready(Ok(None)))
            },
        }
    }

    /// The decision of `user` once the user id is known.
    pub open spec fn continue_user_spec(self, id: Result<Option<UserId>, AuthError>) -> (Self, UserStep<UserId, User>) {
        match id {
            Err(e) => (self, UserStep::Ready(Err(e))),
            Ok(None) => (self.with_user(Some(Ok(None))), UserStep::Ready(Ok(None))),
            Ok(Some(uid)) => if self.has_loader() {
                (self, UserStep::LoadUser(uid))
            } else {
                (self.with_user(Some(Ok(None))), UserStep::Ready(Ok(None)))
            },
        }
    }

    /// The whole `user` operation, where `id_answer` is what the user-id
    /// provider says and `loaded` what the loader says, if they are asked.
    pub open spec fn user_op(
        self,
        id_answer: Result<Option<UserId>, AuthError>,
        loaded: Result<Option<User>, AuthError>,
    ) -> (Self, Result<Option<User>, AuthError>) {
        let (s1, step1) = self.begin_user_spec();
        match step1 {
            UserStep::Ready(r) => (s1, r),
            UserStep::NeedUserId => {
                let (s2, id) = s1.user_id_op(id_answer);
                let (s3, step2) = s2.continue_user_spec(id);
                match step2 {
                    UserStep::Ready(r) => (s3, r),
                    UserStep::LoadUser(_) => (s3.with_user(Some(loaded)), loaded),
                    UserStep::NeedUserId => (s3, Ok(None)),
                }
            },
            UserStep::LoadUser(_) => (s1, Ok(None)),
        }
    }

    /// The id that the `user` operation asks the loader for, if it asks.
    pub open spec fn user_op_loads(self, id_answer: Result<Option<UserId>, AuthError>) -> Option<UserId> {
        let (s1, step1) = self.begin_user_spec();
        match step1 {
            UserStep::NeedUserId => {
                let (s2, id) = s1.user_id_op(id_answer);
                match s2.continue_user_spec(id).1 {
                    UserStep::LoadUser(uid) => Some(uid),
                    _ => None,
                }
            },
            _ => None,
        }
    }

    /// Why `require` answers no record when the user-id answer is `id`:
    /// `Unauthenticated` exactly when nobody is signed in; for a signed-in
    /// id, `UserNotFound` (there is a loader, it found none) or
    /// `MissingLoader` (there is no loader); a failure of the id lookup is
    /// passed on.
    pub open spec fn require_last_step(self, id: Result<Option<UserId>, AuthError>) -> Result<User, AuthError> {
        match id {
            Ok(None) => Err(AuthError::Unauthenticated),
            Err(e) => Err(e),
            Ok(Some(_)) => if self.has_loader() {
                Err(AuthError::UserNotFound)
            } else {
                Err(AuthError::MissingLoader)
            },
        }
    }

    /// The whole `require` operation: `user`, then, when that answered
    /// nobody, `user_id` to tell why.
    pub open spec fn require_op(
        self,
        id_answer: Result<Option<UserId>, AuthError>,
        loaded: Result<Option<User>, AuthError>,
    ) -> (Self, Result<User, AuthError>) {
        let (s1, u) = self.user_op(id_answer, loaded);
        match require_first_step(u) {
            RequireStep::Ready(r) => (s1, r),
            RequireStep::NeedUserId => {
                let (s2, id) = s1.user_id_op(id_answer);
                (s2, s2.require_last_step(id))
            },
        }
    }

    /// The first decision of sign-in and sign-out: `MissingSession` when no
    /// session is configured.
    pub open spec fn begin_session_change_spec(self) -> Result<(), AuthError> {
        if self.has_session() {
            Ok(())
        } else {
            Err(AuthError::MissingSession)
        }
    }

    /// The decision of sign-in and sign-out once the session has answered:
    /// success empties the caches; a failure is passed on and keeps them.
    pub open spec fn finish_session_change_spec(self, outcome: Result<(), AuthError>) -> (Self, Result<(), AuthError>) {
        if outcome is Ok {
            (self.invalidated(), outcome)
        } else {
            (self, outcome)
        }
    }

    /// The whole sign-in or sign-out operation, where `outcome` is what the
    /// session says if it is asked.
    pub open spec fn session_op(self, outcome: Result<(), AuthError>) -> (Self, Result<(), AuthError>) {
        match self.begin_session_change_spec() {
            Err(e) => (self, Err(e)),
            Ok(()) => self.finish_session_change_spec(outcome),
        }
    }

    #[verifier::type_invariant]
    closed spec fn engine_invariant(self) -> bool {
        self.wf()
    }

    /// The invariant of every engine (kept by each step, whatever order the
    /// steps are called in): without a loader
    /// the only user answer ever cached is "nobody"; a cached user record,
    /// and a cached loader failure, are always backed by a cached signed-in
    /// user id.
    pub open spec fn wf(self) -> bool {
        &&& !self.has_loader() ==> (self.cached_user() is None || self.cached_user() == Some(
            Ok::<Option<User>, AuthError>(None),
        ))
        &&& (self.cached_user() matches Some(Ok(Some(_))) ==> self.cached_user_id() matches Some(
            Ok(Some(_)),
        ))
        &&& (self.cached_user() matches Some(Err(_)) ==> self.cached_user_id() matches Some(
            Ok(Some(_)),
        ))
    }
}

impl<UserId: Clone, User: Clone, P, L, S> AuthEngine<UserId, User, P, L, S> {
    /// An engine with empty caches.
    pub fn new(user_id_provider: P, user_loader: Option<L>, session: Option<S>) -> (e: Self)
        ensures
            e.provider() == user_id_provider,
            e.loader() == user_loader,
            e.session_handle() == session,
            e.cached_user_id() is None,
            e.cached_user() is None,
            e.wf(),
    {
        AuthEngine { user_id_provider, user_loader, session, cache: Cache::empty() }
    }

    /// Forgets both cached answers.
    pub fn invalidate_cache(&mut self)
        ensures
            *final(self) == old(self).invalidated(),
            final(self).cached_user_id() is None,
            final(self).cached_user() is None,
            final(self).same_setup(*old(self)),
            final(self).wf(),
    {
        let ghost pre = *self;
        self.cache.user = None;
        self.cache.user_id = None;
        proof {
            pre.lemma_updates(None, None);
            pre.with_user_id(None).lemma_updates(None, None);
        }
    }

    /// The user-id provider, for the caller to ask.
    pub fn user_id_provider(&self) -> (p: &P)
        ensures
            *p == self.provider(),
    {
        &self.user_id_provider
    }

    /// The user loader, if one is configured.
    pub fn user_loader(&self) -> (l: &Option<L>)
        ensures
            *l == self.loader(),
    {
        &self.user_loader
    }

    /// The session, if one is configured.
    pub fn session(&self) -> (s: &Option<S>)
        ensures
            *s == self.session_handle(),
    {
        &self.session
    }

    /// First decision of `user_id`: the cached answer, or ask the provider.
    pub fn user_id(&self) -> (step: UserIdStep<UserId>)
        ensures
            match self.cached_user_id() {
                Some(v) => step matches UserIdStep::Ready(w) && copy_of_outcome(v, w),
                None => step is AskProvider,
            },
            self.wf(),
    {
        proof {
            use_type_invariant(self);
        }
        match &self.cache.user_id {
            Some(v) => UserIdStep::Ready(copy_outcome(v)),
            None => UserIdStep::AskProvider,
        }
    }

    /// Returns the provider's answer, and caches a copy of it unless an
    /// answer is cached already (one that arrived first, from a concurrent
    /// lookup), which is kept.
    pub fn finish_user_id(&mut self, answer: Result<Option<UserId>, AuthError>) -> (r: Result<
        Option<UserId>,
        AuthError,
    >)
        ensures
            r == answer,
            old(self).cached_user_id() is None ==> (final(self).cached_user_id() matches Some(c)
                && copy_of_outcome(answer, c)),
            old(self).cached_user_id() is Some ==> *final(self) == *old(self),
            final(self).cached_user() == old(self).cached_user(),
            final(self).same_setup(*old(self)),
            *final(self) == old(self).with_user_id(final(self).cached_user_id()),
            final(self).wf(),
    {
        let ghost pre = *self;
        proof {
            use_type_invariant(&*self);
            pre.lemma_updates(pre.cached_user_id(), None);
        }
        if self.cache.user_id.is_none() {
            let kept = copy_outcome(&answer);
            self.cache.user_id = Some(kept);
            proof {
                pre.lemma_updates(self.cache.user_id, None);
            }
        }
        proof {
            use_type_invariant(&*self);
        }
        answer
    }

    /// Whether someone is signed in, from the answer of `user_id`.
    pub fn check(&self, id: Result<Option<UserId>, AuthError>) -> (r: Result<bool, AuthError>)
        ensures
            r == check_of(id),
    {
        match id {
            Ok(o) => Ok(o.is_some()),
            Err(e) => Err(e),
        }
    }

    /// The signed-in user id, or `Unauthenticated`, from the answer of
    /// `user_id`.
    pub fn require_user_id(&self, id: Result<Option<UserId>, AuthError>) -> (r: Result<UserId, AuthError>)
        ensures
            r == required_of(id),
    {
        match id {
            Ok(Some(v)) => Ok(v),
            Ok(None) => Err(AuthError::Unauthenticated),
            Err(e) => Err(e),
        }
    }

    /// First decision of `user`: the cached answer; "nobody" (cached) when no
    /// loader is configured; else resolve the user id first.
    pub fn user(&mut self) -> (step: UserStep<UserId, User>)
        ensures
            *final(self) == old(self).begin_user_spec().0,
            copy_of_step(old(self).begin_user_spec().1, step),
            final(self).same_setup(*old(self)),
            final(self).cached_user_id() == old(self).cached_user_id(),
            final(self).cached_user() == (if old(self).cached_user() is None && !old(self).has_loader() {
                Some(Ok::<Option<User>, AuthError>(None))
            } else {
                old(self).cached_user()
            }),
            final(self).wf(),
    {
        let ghost pre = *self;
        proof {
            use_type_invariant(&*self);
            pre.lemma_updates(None, Some(Ok(None)));
        }
        match &self.cache.user {
            Some(v) => UserStep::Ready(copy_outcome(v)),
            None => {
                if self.user_loader.is_some() {
                    UserStep::NeedUserId
                } else {
                    self.cache.user = Some(Ok(None));
                    proof {
                        use_type_invariant(&*self);
                    }
                    UserStep::Ready(Ok(None))
                }
            },
        }
    }

    /// Decision of `user` once the user id is known: a failure is passed on
    /// (and not cached as the user answer), "nobody" is cached and returned,
    /// a signed-in id is to be loaded.
    pub fn continue_user(&mut self, id: Result<Option<UserId>, AuthError>) -> (step: UserStep<
        UserId,
        User,
    >)
        ensures
            *final(self) == old(self).continue_user_spec(id).0,
            step == old(self).continue_user_spec(id).1,
            final(self).same_setup(*old(self)),
            final(self).cached_user_id() == old(self).cached_user_id(),
            final(self).cached_user() == (if id == Ok::<Option<UserId>, AuthError>(None) || (id is Ok
                && !old(self).has_loader()) {
                Some(Ok::<Option<User>, AuthError>(None))
            } else {
                old(self).cached_user()
            }),
            step is LoadUser ==> old(self).has_loader(),
            final(self).wf(),
    {
        let ghost pre = *self;
        proof {
            use_type_invariant(&*self);
            pre.lemma_updates(None, Some(Ok(None)));
        }
        match id {
            Err(e) => UserStep::Ready(Err(e)),
            Ok(None) => {
                self.cache.user = Some(Ok(None));
                proof {
                    use_type_invariant(&*self);
                }
                UserStep::Ready(Ok(None))
            },
            Ok(Some(uid)) => {
                if self.user_loader.is_some() {
                    UserStep::LoadUser(uid)
                } else {
                    self.cache.user = Some(Ok(None));
                    proof {
                        use_type_invariant(&*self);
                    }
                    UserStep::Ready(Ok(None))
                }
            },
        }
    }

    /// Returns the loader's answer, and caches a copy of it while a loader
    /// is configured and a signed-in user id is cached (so a cached record is
    /// always backed by the signed-in id); otherwise (the caches were emptied
    /// while the loader was asked) nothing changes.
    pub fn finish_user(&mut self, loaded: Result<Option<User>, AuthError>) -> (r: Result<
        Option<User>,
        AuthError,
    >)
        ensures
            r == loaded,
            ({
                let signed_in = old(self).has_loader() && old(self).cached_user_id() matches Some(
                    Ok(Some(_)),
                );
                &&& signed_in ==> (final(self).cached_user() matches Some(c) && copy_of_outcome(loaded, c))
                &&& !signed_in ==> *final(self) == *old(self)
            }),
            final(self).cached_user_id() == old(self).cached_user_id(),
            final(self).same_setup(*old(self)),
            *final(self) == old(self).with_user(final(self).cached_user()),
            final(self).wf(),
    {
        let ghost pre = *self;
        proof {
            use_type_invariant(&*self);
            pre.lemma_updates(None, pre.cached_user());
        }
        let signed_in = match &self.cache.user_id {
            Some(Ok(Some(_))) => self.user_loader.is_some(),
            _ => false,
        };
        if signed_in {
            let kept = copy_outcome(&loaded);
            self.cache.user = Some(kept);
            proof {
                pre.lemma_updates(None, self.cache.user);
            }
        }
        proof {
            use_type_invariant(&*self);
        }
        loaded
    }

    /// First decision of `require`, from the answer of `user`.
    pub fn require(&self, user: Result<Option<User>, AuthError>) -> (step: RequireStep<User>)
        ensures
            step == require_first_step(user),
    {
        match user {
            Ok(Some(u)) => RequireStep::Ready(Ok(u)),
            Ok(None) => RequireStep::NeedUserId,
            Err(e) => RequireStep::Ready(Err(e)),
        }
    }

    /// Last decision of `require` when `user` answered nobody, from the
    /// answer of `user_id`: `Unauthenticated` exactly when nobody is signed
    /// in.
    pub fn finish_require(&self, id: Result<Option<UserId>, AuthError>) -> (r: Result<User, AuthError>)
        ensures
            r == self.require_last_step(id),
            r == Err::<User, AuthError>(AuthError::Unauthenticated) <==> id == Ok::<Option<UserId>, AuthError>(None)
                || id == Err::<Option<UserId>, AuthError>(AuthError::Unauthenticated),
    {
        match id {
            Ok(None) => Err(AuthError::Unauthenticated),
            Err(e) => Err(e),
            Ok(Some(_)) => {
                if self.user_loader.is_some() {
                    Err(AuthError::UserNotFound)
                } else {
                    Err(AuthError::MissingLoader)
                }
            },
        }
    }

    /// First decision of sign-in: `MissingSession` without a session, else
    /// ask the session, once, to sign in (a clone of) `user_id`.
    pub fn sign_in_by_user_id(&self, user_id: &UserId) -> (r: Result<SessionAction<UserId>, AuthError>)
        ensures
            !self.has_session() ==> r == Err::<SessionAction<UserId>, AuthError>(AuthError::MissingSession),
            self.has_session() ==> (r matches Ok(SessionAction::SignIn(id)) && cloned(*user_id, id)),
    {
        if self.session.is_some() {
            Ok(SessionAction::SignIn(user_id.clone()))
        } else {
            Err(AuthError::MissingSession)
        }
    }

    /// First decision of sign-out: `MissingSession` without a session, else
    /// ask the session, once, to sign out.
    pub fn sign_out(&self) -> (r: Result<SessionAction<UserId>, AuthError>)
        ensures
            !self.has_session() ==> r == Err::<SessionAction<UserId>, AuthError>(AuthError::MissingSession),
            self.has_session() ==> r == Ok::<SessionAction<UserId>, AuthError>(SessionAction::SignOut),
    {
        if self.session.is_some() {
            Ok(SessionAction::SignOut)
        } else {
            Err(AuthError::MissingSession)
        }
    }

    /// Decision of sign-in and sign-out once the session has answered:
    /// success empties both caches; a failure is passed on and changes
    /// nothing.
    pub fn finish_session_change(&mut self, outcome: Result<(), AuthError>) -> (r: Result<
        (),
        AuthError,
    >)
        ensures
            (*final(self), r) == old(self).finish_session_change_spec(outcome),
            r == outcome,
            final(self).same_setup(*old(self)),
            outcome is Ok ==> final(self).cached_user_id() is None && final(self).cached_user() is None,
            outcome is Err ==> *final(self) == *old(self),
            final(self).wf(),
    {
        proof {
            use_type_invariant(&*self);
        }
        if outcome.is_ok() {
            self.invalidate_cache();
        }
        outcome
    }
}

/// Law: `require` fails with `Unauthenticated` exactly when nobody is
/// signed in. On an engine reached by whole operations, with `id` the
/// request's user-id answer: "nobody" makes `require` fail with
/// `Unauthenticated`; a failed id lookup makes it fail with that failure; for
/// a signed-in id it answers the record, or `UserNotFound` / `MissingLoader`
/// when there is none, or the loader's own failure, and so it is
/// `Unauthenticated` only when the loader itself answered that.
pub proof fn lemma_require_follows_user_id<UserId, User, P, L, S>(
    e: AuthEngine<UserId, User, P, L, S>,
    id_answer: Result<Option<UserId>, AuthError>,
    loaded: Result<Option<User>, AuthError>,
)
    requires
        e.wf(),
    ensures
        ({
            let id = e.user_id_op(id_answer).1;
            let u = e.user_op(id_answer, loaded).1;
            let r = e.require_op(id_answer, loaded).1;
            &&& id == Ok::<Option<UserId>, AuthError>(None) ==> r == Err::<User, AuthError>(AuthError::Unauthenticated)
            &&& id matches Err(x) ==> r == Err::<User, AuthError>(x)
            &&& (id is Ok && id->Ok_0 is Some) ==> {
                &&& u matches Ok(Some(v)) ==> r == Ok::<User, AuthError>(v)
                &&& u == Ok::<Option<User>, AuthError>(None) ==> r == Err::<User, AuthError>(
                    if e.has_loader() { AuthError::UserNotFound } else { AuthError::MissingLoader },
                )
                &&& u matches Err(x) ==> r == Err::<User, AuthError>(x)
                &&& r == Err::<User, AuthError>(AuthError::Unauthenticated) ==> u == Err::<Option<User>, AuthError>(AuthError::Unauthenticated)
            }
        }),
{
    e.lemma_updates(Some(id_answer), Some(loaded));
    e.lemma_updates(None, Some(Ok(None)));
    e.with_user(Some(Ok(None))).lemma_updates(Some(id_answer), None);
    e.with_user_id(Some(id_answer)).lemma_updates(None, Some(loaded));
    e.with_user_id(Some(id_answer)).lemma_updates(None, Some(Ok(None)));
    e.with_user_id(Some(id_answer)).with_user(Some(loaded)).lemma_updates(None, None);
    e.with_user_id(Some(id_answer)).with_user(Some(Ok(None))).lemma_updates(None, None);
    e.with_user(Some(loaded)).lemma_updates(None, None);
    e.with_user(Some(Ok(None))).lemma_updates(None, None);
}

/// Law: the provider is asked for the user id at most once per request.
/// Once `user_id` has answered (a user id, "nobody", or an error), every later
/// `user_id` gives the same answer, whatever the provider would say now, and
/// changes nothing.
pub proof fn lemma_user_id_is_memoized<UserId, User, P, L, S>(
    e: AuthEngine<UserId, User, P, L, S>,
    first: Result<Option<UserId>, AuthError>,
    second: Result<Option<UserId>, AuthError>,
)
    ensures
        ({
            let (e1, r1) = e.user_id_op(first);
            e1.user_id_op(second) == (e1, r1)
        }),
{
    e.lemma_updates(Some(first), None);
}

/// Law: the user record is looked up at most once per request. Once `user`
/// has answered, every later `user` gives the same answer, whatever the
/// provider and the loader would say now, and changes nothing. (A failed
/// user-id lookup is not cached as the user answer, but the failure itself is
/// cached, so it is repeated.)
pub proof fn lemma_user_is_memoized<UserId, User, P, L, S>(
    e: AuthEngine<UserId, User, P, L, S>,
    id1: Result<Option<UserId>, AuthError>,
    loaded1: Result<Option<User>, AuthError>,
    id2: Result<Option<UserId>, AuthError>,
    loaded2: Result<Option<User>, AuthError>,
)
    ensures
        ({
            let (e1, r1) = e.user_op(id1, loaded1);
            e1.user_op(id2, loaded2) == (e1, r1)
        }),
{
    e.lemma_updates(Some(id1), Some(Ok(None)));
    e.with_user_id(Some(id1)).lemma_updates(None, Some(loaded1));
    e.with_user_id(Some(id1)).lemma_updates(None, Some(Ok(None)));
    e.lemma_updates(None, Some(loaded1));
    let (s1, step1) = e.begin_user_spec();
    if let UserStep::NeedUserId = step1 {
        let (s2, id) = s1.user_id_op(id1);
        lemma_user_id_is_memoized(s1, id1, id2);
        s2.lemma_updates(None, Some(loaded1));
        s2.lemma_updates(None, Some(Ok(None)));
        s2.with_user(Some(loaded1)).lemma_updates(None, None);
        s2.with_user(Some(Ok(None))).lemma_updates(None, None);
        s2.lemma_updates(None, None);
    }
}

/// Law: the user lookup follows the user id. When a loader is configured and
/// no user answer is cached, `user` fails with the user-id failure (and
/// leaves the user answer uncached), answers "nobody" when nobody is signed
/// in, and otherwise asks the loader for exactly the signed-in id and answers
/// what the loader says.
pub proof fn lemma_user_follows_user_id<UserId, User, P, L, S>(
    e: AuthEngine<UserId, User, P, L, S>,
    id_answer: Result<Option<UserId>, AuthError>,
    loaded: Result<Option<User>, AuthError>,
)
    requires
        e.has_loader(),
        e.cached_user() is None,
    ensures
        ({
            let (e1, id) = e.user_id_op(id_answer);
            &&& id matches Err(x) ==> e.user_op(id_answer, loaded) == (e1, Err::<Option<User>, AuthError>(x))
            &&& id == Ok::<Option<UserId>, AuthError>(None) ==> e.user_op(id_answer, loaded).1 == Ok::<Option<User>, AuthError>(None)
                && e.user_op_loads(id_answer) is None
            &&& id matches Ok(Some(uid)) ==> e.user_op_loads(id_answer) == Some(uid)
                && e.user_op(id_answer, loaded).1 == loaded
        }),
{
}

/// Law: a user record is only ever answered for a signed-in user. On an
/// engine reached by whole operations, after `user` answers a record, the
/// engine's `user_id` answers a signed-in id, whatever the provider says.
pub proof fn lemma_user_implies_signed_in<UserId, User, P, L, S>(
    e: AuthEngine<UserId, User, P, L, S>,
    id_answer: Result<Option<UserId>, AuthError>,
    loaded: Result<Option<User>, AuthError>,
    later: Result<Option<UserId>, AuthError>,
)
    requires
        e.wf(),
    ensures
        e.user_op(id_answer, loaded).1 is Ok && e.user_op(id_answer, loaded).1->Ok_0 is Some
            ==> e.user_op(id_answer, loaded).0.user_id_op(later).1 matches Ok(Some(_)),
{
    lemma_ops_keep_wf(e, id_answer, loaded, Ok(()));
    let (e1, r1) = e.user_op(id_answer, loaded);
    lemma_user_is_memoized(e, id_answer, loaded, id_answer, loaded);
    e.lemma_updates(Some(id_answer), Some(loaded));
    e.with_user_id(Some(id_answer)).lemma_updates(None, Some(loaded));
}

/// Law: without a user loader, `user` always answers "nobody", whatever the
/// provider says (on an engine reached by whole operations).
pub proof fn lemma_without_loader_nobody<UserId, User, P, L, S>(
    e: AuthEngine<UserId, User, P, L, S>,
    id_answer: Result<Option<UserId>, AuthError>,
    loaded: Result<Option<User>, AuthError>,
)
    requires
        e.wf(),
        !e.has_loader(),
    ensures
        e.user_op(id_answer, loaded).1 == Ok::<Option<User>, AuthError>(None),
        e.user_op_loads(id_answer) is None,
{
}

/// Law: every whole operation keeps the engine invariant.
pub proof fn lemma_ops_keep_wf<UserId, User, P, L, S>(
    e: AuthEngine<UserId, User, P, L, S>,
    id_answer: Result<Option<UserId>, AuthError>,
    loaded: Result<Option<User>, AuthError>,
    outcome: Result<(), AuthError>,
)
    requires
        e.wf(),
    ensures
        e.user_id_op(id_answer).0.wf(),
        e.user_op(id_answer, loaded).0.wf(),
        e.session_op(outcome).0.wf(),
        e.invalidated().wf(),
{
    e.lemma_updates(Some(id_answer), Some(loaded));
    e.lemma_updates(None, Some(Ok(None)));
    e.lemma_updates(None, None);
    e.with_user_id(None).lemma_updates(None, None);
    e.with_user_id(Some(id_answer)).lemma_updates(None, Some(loaded));
    e.with_user_id(Some(id_answer)).lemma_updates(None, Some(Ok(None)));
}

/// Law: forgetting makes the engine ask again. After `invalidate_cache` (or
/// a successful sign-in or sign-out) no user answer is cached and `user_id`
/// answers what the provider says now.
pub proof fn lemma_invalidate_asks_again<UserId, User, P, L, S>(
    e: AuthEngine<UserId, User, P, L, S>,
    answer: Result<Option<UserId>, AuthError>,
)
    ensures
        e.invalidated().cached_user() is None,
        e.invalidated().user_id_op(answer).1 == answer,
        e.invalidated().provider() == e.provider(),
        e.invalidated().loader() == e.loader(),
        e.invalidated().session_handle() == e.session_handle(),
{
    e.lemma_updates(None, None);
    e.with_user_id(None).lemma_updates(None, None);
}

/// Law: sign-in and sign-out. Without a session both fail with
/// `MissingSession` and change nothing; when the session succeeds the caches
/// are emptied, so the next `user_id` asks the provider again; when the session
/// fails its error is returned and the caches are kept.
pub proof fn lemma_session_change<UserId, User, P, L, S>(
    e: AuthEngine<UserId, User, P, L, S>,
    outcome: Result<(), AuthError>,
    answer: Result<Option<UserId>, AuthError>,
)
    ensures
        !e.has_session() ==> e.session_op(outcome) == (e, Err::<(), AuthError>(AuthError::MissingSession)),
        e.has_session() && outcome is Ok ==> {
            &&& e.session_op(outcome).1 == outcome
            &&& e.session_op(outcome).0.cached_user() is None
            &&& e.session_op(outcome).0.user_id_op(answer).1 == answer
        },
        e.has_session() ==> (outcome matches Err(x) ==> e.session_op(outcome) == (e, Err::<(), AuthError>(x))),
{
    lemma_invalidate_asks_again(e, answer);
}

/// Law: `check` and `require_user_id` agree. On a user-id answer, `check` is
/// true exactly when `require_user_id` succeeds, false exactly when it fails
/// with `Unauthenticated`; a failure of the lookup is returned by both.
pub proof fn lemma_check_and_require_agree<UserId>(id: Result<Option<UserId>, AuthError>)
    ensures
        id is Ok ==> (check_of(id) == Ok::<bool, AuthError>(true) <==> required_of(id) is Ok),
        id is Ok ==> (check_of(id) == Ok::<bool, AuthError>(false) <==> required_of(id) == Err::<UserId, AuthError>(AuthError::Unauthenticated)),
        id matches Err(x) ==> check_of(id) == Err::<bool, AuthError>(x) && required_of(id) == Err::<UserId, AuthError>(x),
{
}

} // verus!

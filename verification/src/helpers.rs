//! Request helpers of the synchronous context API.
//!
//! Each helper takes the context of the current request (as found by an
//! `AuthContextAccessor`), or `None` when there is none, and the session
//! (as found by an `AuthSessionAccessor`) where it needs one.

use vstd::prelude::*;
use crate::authenticatable::Authenticatable;
use crate::authorizable::Authorizable;
use crate::context::{AuthContext, required_user_of};
use crate::error::AuthError;
use crate::outcome::check_of;
use crate::session::AuthSession;

verus! {

/// `r` is the id lookup on the answer `a`: the id that the user gives,
/// "nobody", or the failure.
pub open spec fn id_answer_of<U: Authenticatable>(
    a: Result<Option<U>, AuthError>,
    r: Result<Option<U::Id>, AuthError>,
) -> bool {
    match a {
        Ok(Some(u)) => r matches Ok(Some(id)) && call_ensures(U::id, (&u,), id),
        Ok(None) => r == Ok::<Option<U::Id>, AuthError>(None),
        Err(e) => r == Err::<Option<U::Id>, AuthError>(e),
    }
}

/// `r` is the required-id lookup on the answer `a`.
pub open spec fn required_id_of<U: Authenticatable>(a: Result<Option<U>, AuthError>, r: Result<U::Id, AuthError>) -> bool {
    match a {
        Ok(Some(u)) => r matches Ok(id) && call_ensures(U::id, (&u,), id),
        Ok(None) => r == Err::<U::Id, AuthError>(AuthError::Unauthenticated),
        Err(e) => r == Err::<U::Id, AuthError>(e),
    }
}

/// What `auth_assert` answers on the answer `a`.
pub open spec fn asserted_of<U>(a: Result<Option<U>, AuthError>) -> Result<(), AuthError> {
    match a {
        Ok(Some(_)) => Ok(()),
        Ok(None) => Err(AuthError::Unauthenticated),
        Err(e) => Err(e),
    }
}

/// `r` is a yes/no question put to the user of the answer `a`:
/// `asked(u, b)` says that `u` answered `b`; nobody answers no.
pub open spec fn asked_of<U>(
    a: Result<Option<U>, AuthError>,
    r: Result<bool, AuthError>,
    asked: spec_fn(U, bool) -> bool,
) -> bool {
    match a {
        Ok(Some(u)) => r matches Ok(b) && asked(u, b),
        Ok(None) => r == Ok::<bool, AuthError>(false),
        Err(e) => r == Err::<bool, AuthError>(e),
    }
}

/// `b` is the answer of `u` to "can you do any of `abilities`?", each asked
/// in turn.
pub open spec fn can_any_answer<U: Authorizable>(u: U, abilities: Seq<&str>, b: bool) -> bool {
    &&& b ==> exists|i: int| 0 <= i < abilities.len() && call_ensures(U::can, (&u, abilities[i]), true)
    &&& !b ==> forall|i: int| 0 <= i < abilities.len() ==> call_ensures(U::can, (&u, abilities[i]), false)
}

/// `b` is the answer of `u` to "do you have any of `roles`?", each asked in
/// turn.
pub open spec fn has_any_role_answer<U: Authorizable>(u: U, roles: Seq<&str>, b: bool) -> bool {
    &&& b ==> exists|i: int| 0 <= i < roles.len() && call_ensures(U::has_role, (&u, roles[i]), true)
    &&& !b ==> forall|i: int| 0 <= i < roles.len() ==> call_ensures(U::has_role, (&u, roles[i]), false)
}

/// Whether `u` can do any of `abilities`, asked in turn.
pub fn any_ability<U: Authorizable>(u: &U, abilities: &[&str]) -> (b: bool)
    ensures
        can_any_answer(*u, abilities@, b),
{
    let mut i: usize = 0;
    while i < abilities.len()
        invariant
            i <= abilities@.len(),
            forall|j: int| 0 <= j < i ==> call_ensures(U::can, (u, abilities@[j]), false),
        decreases abilities@.len() - i,
    {
        if u.can(abilities[i]) {
            return true;
        }
        i = i + 1;
    }
    false
}

/// Whether `u` has any of `roles`, asked in turn.
pub fn any_role<U: Authorizable>(u: &U, roles: &[&str]) -> (b: bool)
    ensures
        has_any_role_answer(*u, roles@, b),
{
    let mut i: usize = 0;
    while i < roles.len()
        invariant
            i <= roles@.len(),
            forall|j: int| 0 <= j < i ==> call_ensures(U::has_role, (u, roles@[j]), false),
        decreases roles@.len() - i,
    {
        if u.has_role(roles[i]) {
            return true;
        }
        i = i + 1;
    }
    false
}

/// The current user, or `MissingContext` without a context.
pub fn auth_user<U: Authenticatable>(ctx: Option<&mut AuthContext<U>>) -> (r: Result<Option<U>, AuthError>)
    ensures
        ctx is None ==> r == Err::<Option<U>, AuthError>(AuthError::MissingContext),
        ctx matches Some(c) ==> c.answered(*final(c), r),
{
    match ctx {
        Some(c) => c.user(),
        None => Err(AuthError::MissingContext),
    }
}

/// Whether someone is signed in.
pub fn auth_check<U: Authenticatable>(ctx: Option<&mut AuthContext<U>>) -> (r: Result<bool, AuthError>)
    ensures
        ctx is None ==> r == Err::<bool, AuthError>(AuthError::MissingContext),
        ctx matches Some(c) ==> exists|a: Result<Option<U>, AuthError>| #[trigger] c.answered(*final(c), a) && r == check_of(a),
{
    match auth_user(ctx) {
        Ok(o) => Ok(o.is_some()),
        Err(e) => Err(e),
    }
}

/// The current user, or `Unauthenticated`.
pub fn auth_require<U: Authenticatable>(ctx: Option<&mut AuthContext<U>>) -> (r: Result<U, AuthError>)
    ensures
        ctx is None ==> r == Err::<U, AuthError>(AuthError::MissingContext),
        ctx matches Some(c) ==> exists|a: Result<Option<U>, AuthError>| #[trigger] c.answered(*final(c), a) && r == required_user_of(a),
{
    match auth_user(ctx) {
        Ok(Some(u)) => Ok(u),
        Ok(None) => Err(AuthError::Unauthenticated),
        Err(e) => Err(e),
    }
}

/// The id of the current user, if someone is signed in.
pub fn auth_id<U: Authenticatable>(ctx: Option<&mut AuthContext<U>>) -> (r: Result<Option<U::Id>, AuthError>)
    ensures
        ctx is None ==> r == Err::<Option<U::Id>, AuthError>(AuthError::MissingContext),
        ctx matches Some(c) ==> exists|a: Result<Option<U>, AuthError>| #[trigger] c.answered(*final(c), a) && id_answer_of(a, r),
{
    match auth_user(ctx) {
        Ok(Some(u)) => Ok(Some(u.id())),
        Ok(None) => Ok(None),
        Err(e) => Err(e),
    }
}

/// The id of the current user, or `Unauthenticated`.
pub fn auth_require_id<U: Authenticatable>(ctx: Option<&mut AuthContext<U>>) -> (r: Result<U::Id, AuthError>)
    ensures
        ctx is None ==> r == Err::<U::Id, AuthError>(AuthError::MissingContext),
        ctx matches Some(c) ==> exists|a: Result<Option<U>, AuthError>| #[trigger] c.answered(*final(c), a) && required_id_of(a, r),
{
    match auth_require(ctx) {
        Ok(u) => Ok(u.id()),
        Err(e) => Err(e),
    }
}

/// Succeeds exactly when someone is signed in.
pub fn auth_assert<U: Authenticatable>(ctx: Option<&mut AuthContext<U>>) -> (r: Result<(), AuthError>)
    ensures
        ctx is None ==> r == Err::<(), AuthError>(AuthError::MissingContext),
        ctx matches Some(c) ==> exists|a: Result<Option<U>, AuthError>| #[trigger] c.answered(*final(c), a) && r == asserted_of(a),
{
    match auth_require(ctx) {
        Ok(_) => Ok(()),
        Err(e) => Err(e),
    }
}

/// `f` applied to the current user, if someone is signed in.
pub fn auth_if<U: Authenticatable, F: FnOnce(U) -> R, R>(ctx: Option<&mut AuthContext<U>>, f: F) -> (r: Result<Option<R>, AuthError>)
    requires
        forall|u: U| call_requires(f, (u,)),
    ensures
        ctx is None ==> r == Err::<Option<R>, AuthError>(AuthError::MissingContext),
        ctx matches Some(c) ==> exists|a: Result<Option<U>, AuthError>| #[trigger] c.answered(*final(c), a) && match a {
            Ok(Some(u)) => r matches Ok(Some(x)) && call_ensures(f, (u,), x),
            Ok(None) => r == Ok::<Option<R>, AuthError>(None),
            Err(e) => r == Err::<Option<R>, AuthError>(e),
        },
{
    match auth_user(ctx) {
        Ok(Some(u)) => Ok(Some(f(u))),
        Ok(None) => Ok(None),
        Err(e) => Err(e),
    }
}

/// Whether the current user can do `ability`; nobody can do nothing.
pub fn auth_can<U: Authenticatable + Authorizable>(ctx: Option<&mut AuthContext<U>>, ability: &str) -> (r: Result<bool, AuthError>)
    ensures
        ctx is None ==> r == Err::<bool, AuthError>(AuthError::MissingContext),
        ctx matches Some(c) ==> exists|a: Result<Option<U>, AuthError>| #[trigger] c.answered(*final(c), a) && asked_of(
            a,
            r,
            |v: U, b: bool| call_ensures(U::can, (&v, ability), b),
        ),
{
    match auth_user(ctx) {
        Ok(Some(u)) => Ok(u.can(ability)),
        Ok(None) => Ok(false),
        Err(e) => Err(e),
    }
}

/// Whether the current user can do any of `abilities`, asked in turn.
pub fn auth_can_any<U: Authenticatable + Authorizable>(ctx: Option<&mut AuthContext<U>>, abilities: &[&str]) -> (r: Result<bool, AuthError>)
    ensures
        ctx is None ==> r == Err::<bool, AuthError>(AuthError::MissingContext),
        ctx matches Some(c) ==> exists|a: Result<Option<U>, AuthError>| #[trigger] c.answered(*final(c), a) && asked_of(
            a,
            r,
            |v: U, b: bool| can_any_answer(v, abilities@, b),
        ),
{
    match auth_user(ctx) {
        Ok(Some(u)) => Ok(any_ability(&u, abilities)),
        Ok(None) => Ok(false),
        Err(e) => Err(e),
    }
}

/// Whether the current user has `role`; nobody has none.
pub fn auth_has_role<U: Authenticatable + Authorizable>(ctx: Option<&mut AuthContext<U>>, role: &str) -> (r: Result<bool, AuthError>)
    ensures
        ctx is None ==> r == Err::<bool, AuthError>(AuthError::MissingContext),
        ctx matches Some(c) ==> exists|a: Result<Option<U>, AuthError>| #[trigger] c.answered(*final(c), a) && asked_of(
            a,
            r,
            |v: U, b: bool| call_ensures(U::has_role, (&v, role), b),
        ),
{
    match auth_user(ctx) {
        Ok(Some(u)) => Ok(u.has_role(role)),
        Ok(None) => Ok(false),
        Err(e) => Err(e),
    }
}

/// Whether the current user has any of `roles`, asked in turn.
pub fn auth_has_any_role<U: Authenticatable + Authorizable>(ctx: Option<&mut AuthContext<U>>, roles: &[&str]) -> (r: Result<bool, AuthError>)
    ensures
        ctx is None ==> r == Err::<bool, AuthError>(AuthError::MissingContext),
        ctx matches Some(c) ==> exists|a: Result<Option<U>, AuthError>| #[trigger] c.answered(*final(c), a) && asked_of(
            a,
            r,
            |v: U, b: bool| has_any_role_answer(v, roles@, b),
        ),
{
    match auth_user(ctx) {
        Ok(Some(u)) => Ok(any_role(&u, roles)),
        Ok(None) => Ok(false),
        Err(e) => Err(e),
    }
}

/// After the session has answered a sign-in or sign-out: on success the
/// context (if any) forgets its cached user; a failure is passed on and the
/// context is kept.
pub fn settle_sign_change<U: Authenticatable>(outcome: Result<(), AuthError>, ctx: Option<&mut AuthContext<U>>) -> (r: Result<(), AuthError>)
    ensures
        r == outcome,
        ctx matches Some(c) ==> {
            &&& outcome is Ok ==> final(c).cached() is None && final(c).provider_of() == c.provider_of()
            &&& outcome is Err ==> *final(c) == *c
        },
{
    if outcome.is_ok() {
        match ctx {
            Some(c) => {
                let _ = c.invalidate();
            },
            None => {},
        }
    }
    outcome
}

/// Signs `user` in through the session, then makes the context forget its
/// cached user. `MissingSession` without a session.
pub fn auth_sign_in<U: Authenticatable, S: AuthSession<U> + ?Sized>(
    sess: Option<&S>,
    ctx: Option<&mut AuthContext<U>>,
    user: &U,
) -> (r: Result<(), AuthError>)
    ensures
        sess matches Some(s) ==> call_ensures(S::sign_in, (s, user), r),
        sess is None ==> r == Err::<(), AuthError>(AuthError::MissingSession) && (ctx matches Some(c) ==> *final(c) == *c),
        ctx matches Some(c) ==> {
            &&& r is Ok ==> final(c).cached() is None && final(c).provider_of() == c.provider_of()
            &&& r is Err ==> *final(c) == *c
        },
{
    match sess {
        None => Err(AuthError::MissingSession),
        Some(s) => {
            let outcome = s.sign_in(user);
            settle_sign_change(outcome, ctx)
        },
    }
}

/// Signs out through the session, then makes the context forget its cached
/// user. `MissingSession` without a session.
pub fn auth_sign_out<U: Authenticatable, S: AuthSession<U> + ?Sized>(sess: Option<&S>, ctx: Option<&mut AuthContext<U>>) -> (r: Result<(), AuthError>)
    ensures
        sess matches Some(s) ==> call_ensures(S::sign_out, (s,), r),
        sess is None ==> r == Err::<(), AuthError>(AuthError::MissingSession) && (ctx matches Some(c) ==> *final(c) == *c),
        ctx matches Some(c) ==> {
            &&& r is Ok ==> final(c).cached() is None && final(c).provider_of() == c.provider_of()
            &&& r is Err ==> *final(c) == *c
        },
{
    match sess {
        None => Err(AuthError::MissingSession),
        Some(s) => {
            let outcome = s.sign_out();
            settle_sign_change(outcome, ctx)
        },
    }
}

/// Law: `auth_check`, `auth_require` and `auth_assert` agree on a lookup
/// answer: someone is signed in exactly when `require` yields a user and
/// `assert` succeeds; nobody is signed in exactly when both fail with
/// `Unauthenticated` (and the answer is not a failure); a failure of the
/// lookup is returned by all three.
pub proof fn lemma_check_require_assert_agree<U>(a: Result<Option<U>, AuthError>)
    ensures
        check_of(a) == Ok::<bool, AuthError>(true) <==> required_user_of(a) is Ok,
        check_of(a) == Ok::<bool, AuthError>(true) <==> asserted_of(a) is Ok,
        a is Ok ==> (check_of(a) == Ok::<bool, AuthError>(false) <==> required_user_of(a) == Err::<U, AuthError>(AuthError::Unauthenticated)),
        a is Ok ==> (check_of(a) == Ok::<bool, AuthError>(false) <==> asserted_of(a) == Err::<(), AuthError>(AuthError::Unauthenticated)),
        a matches Err(e) ==> check_of(a) == Err::<bool, AuthError>(e) && required_user_of(a) == Err::<U, AuthError>(e) && asserted_of(a) == Err::<(), AuthError>(e),
{
}

/// Law: asking for any of several abilities asks about every listed ability
/// (the first included). A no means that `can` said no for each of them; a
/// yes means that `can` said yes for one of them. Nothing listed is a no.
pub proof fn lemma_any_ability_covers_every_ability<U: Authorizable>(u: &U, abilities: &[&str], b: bool)
    requires
        call_ensures(any_ability::<U>, (u, abilities), b),
    ensures
        !b ==> forall|i: int| 0 <= i < abilities@.len() ==> #[trigger] call_ensures(U::can, (u, abilities@[i]), false),
        b ==> exists|i: int| 0 <= i < abilities@.len() && #[trigger] call_ensures(U::can, (u, abilities@[i]), true),
        abilities@.len() == 0 ==> !b,
{
}

/// Law: asking for any of several roles asks about every listed role (the
/// first included). A no means that `has_role` said no for each of them; a
/// yes means that `has_role` said yes for one of them. Nothing listed is a
/// no.
pub proof fn lemma_any_role_covers_every_role<U: Authorizable>(u: &U, roles: &[&str], b: bool)
    requires
        call_ensures(any_role::<U>, (u, roles), b),
    ensures
        !b ==> forall|i: int| 0 <= i < roles@.len() ==> #[trigger] call_ensures(U::has_role, (u, roles@[i]), false),
        b ==> exists|i: int| 0 <= i < roles@.len() && #[trigger] call_ensures(U::has_role, (u, roles@[i]), true),
        roles@.len() == 0 ==> !b,
{
}

/// Law: the several-abilities and several-roles answers, as the helpers state
/// them for a signed-in user, cover every listed entry, the first included.
pub proof fn lemma_any_answers_cover_every_entry<U: Authorizable>(u: U, names: Seq<&str>, b: bool)
    ensures
        can_any_answer(u, names, b) ==> {
            &&& !b ==> forall|i: int| 0 <= i < names.len() ==> #[trigger] call_ensures(U::can, (&u, names[i]), false)
            &&& b ==> exists|i: int| 0 <= i < names.len() && #[trigger] call_ensures(U::can, (&u, names[i]), true)
        },
        has_any_role_answer(u, names, b) ==> {
            &&& !b ==> forall|i: int| 0 <= i < names.len() ==> #[trigger] call_ensures(U::has_role, (&u, names[i]), false)
            &&& b ==> exists|i: int| 0 <= i < names.len() && #[trigger] call_ensures(U::has_role, (&u, names[i]), true)
        },
{
}

/// Law: a failed lookup is passed on unchanged by every helper. When the
/// context's lookup answers `Err(e)`, `auth_check`, `auth_require`,
/// `auth_assert`, `auth_id`, `auth_require_id` and the yes/no questions all
/// answer exactly `Err(e)`.
pub proof fn lemma_failures_pass_through<U: Authenticatable>(
    e: AuthError,
    id: Result<Option<U::Id>, AuthError>,
    required_id: Result<U::Id, AuthError>,
    asked: Result<bool, AuthError>,
    question: spec_fn(U, bool) -> bool,
)
    ensures
        check_of(Err::<Option<U>, AuthError>(e)) == Err::<bool, AuthError>(e),
        required_user_of(Err::<Option<U>, AuthError>(e)) == Err::<U, AuthError>(e),
        asserted_of(Err::<Option<U>, AuthError>(e)) == Err::<(), AuthError>(e),
        id_answer_of(Err::<Option<U>, AuthError>(e), id) ==> id == Err::<Option<U::Id>, AuthError>(e),
        required_id_of(Err::<Option<U>, AuthError>(e), required_id) ==> required_id == Err::<U::Id, AuthError>(e),
        asked_of(Err::<Option<U>, AuthError>(e), asked, question) ==> asked == Err::<bool, AuthError>(e),
{
}

/// Law: `auth_require_id` fails exactly when and as `auth_require` fails on
/// the same lookup answer, and otherwise answers an id of the user that
/// `auth_require` answers.
pub proof fn lemma_require_id_follows_require<U: Authenticatable>(
    a: Result<Option<U>, AuthError>,
    r: Result<U::Id, AuthError>,
)
    requires
        required_id_of(a, r),
    ensures
        r is Err <==> required_user_of(a) is Err,
        r matches Err(x) ==> required_user_of(a) == Err::<U, AuthError>(x),
        r matches Ok(id) ==> required_user_of(a) matches Ok(u) && call_ensures(U::id, (&u,), id),
{
}

} // verus!

use std::sync::atomic::{AtomicUsize, Ordering};
use std::sync::{Arc, Mutex};

use tetthys_auth::authenticatable::Authenticatable;
use tetthys_auth::authorizable::Authorizable;
use tetthys_auth::context::AuthContext;
use tetthys_auth::error::AuthError;
use tetthys_auth::helpers::{
    auth_assert, auth_can, auth_can_any, auth_check, auth_has_any_role, auth_has_role, auth_id,
    auth_if, auth_require, auth_require_id, auth_sign_in, auth_sign_out, auth_user,
    settle_sign_change,
};
use tetthys_auth::provider::{AuthProvider, ChainProvider, FixedProvider};
use tetthys_auth::session::AuthSession;

#[derive(Clone, Debug, PartialEq)]
struct Member {
    id: u64,
    roles: Vec<String>,
    perms: Vec<String>,
}

impl Member {
    fn new(id: u64) -> Self {
        Member { id, roles: vec![], perms: vec![] }
    }
    fn with_role(mut self, r: &str) -> Self {
        self.roles.push(r.to_string());
        self
    }
    fn with_perm(mut self, p: &str) -> Self {
        self.perms.push(p.to_string());
        self
    }
}

impl Authenticatable for Member {
    type Id = u64;
    fn id(&self) -> u64 {
        self.id
    }
}

impl Authorizable for Member {
    fn roles(&self) -> Vec<String> {
        self.roles.clone()
    }
    fn permissions(&self) -> Vec<String> {
        self.perms.clone()
    }
}

struct Counting {
    calls: Arc<AtomicUsize>,
    answer: Result<Option<Member>, AuthError>,
}

impl AuthProvider<Member> for Counting {
    fn user(&self) -> Result<Option<Member>, AuthError> {
        self.calls.fetch_add(1, Ordering::SeqCst);
        self.answer.clone()
    }
}

fn counting(answer: Result<Option<Member>, AuthError>) -> (AuthContext<Member>, Arc<AtomicUsize>) {
    let calls = Arc::new(AtomicUsize::new(0));
    let provider: Box<dyn AuthProvider<Member>> = Box::new(Counting { calls: calls.clone(), answer });
    let ctx = AuthContext::new(provider);
    (ctx, calls)
}

struct MemorySession {
    signed_in: Mutex<Option<u64>>,
    fail: bool,
}

impl AuthSession<Member> for MemorySession {
    fn sign_in(&self, user: &Member) -> Result<(), AuthError> {
        if self.fail {
            return Err(AuthError::ProviderFailed("store".to_string()));
        }
        *self.signed_in.lock().unwrap() = Some(user.id);
        Ok(())
    }
    fn sign_out(&self) -> Result<(), AuthError> {
        if self.fail {
            return Err(AuthError::ProviderFailed("store".to_string()));
        }
        *self.signed_in.lock().unwrap() = None;
        Ok(())
    }
}

#[test]
fn context_asks_provider_once() {
    let (mut ctx, calls) = counting(Ok(Some(Member::new(1))));
    assert_eq!(ctx.user(), Ok(Some(Member::new(1))));
    assert_eq!(ctx.user(), Ok(Some(Member::new(1))));
    assert_eq!(ctx.check(), Ok(true));
    assert_eq!(calls.load(Ordering::SeqCst), 1);
}

#[test]
fn context_caches_failures() {
    let (mut ctx, calls) = counting(Err(AuthError::ProviderFailed("db".to_string())));
    assert_eq!(ctx.user(), Err(AuthError::ProviderFailed("db".to_string())));
    assert_eq!(ctx.require(), Err(AuthError::ProviderFailed("db".to_string())));
    assert_eq!(calls.load(Ordering::SeqCst), 1);
}

#[test]
fn context_invalidate_asks_again() {
    let (mut ctx, calls) = counting(Ok(None));
    assert_eq!(ctx.check(), Ok(false));
    assert_eq!(ctx.invalidate(), Ok(()));
    assert_eq!(ctx.require(), Err(AuthError::Unauthenticated));
    assert_eq!(calls.load(Ordering::SeqCst), 2);
}

#[test]
fn context_record_user_is_cached() {
    let (mut ctx, calls) = counting(Ok(None));
    assert_eq!(ctx.record_user(Ok(Some(Member::new(4)))), Ok(Some(Member::new(4))));
    assert_eq!(ctx.user(), Ok(Some(Member::new(4))));
    assert_eq!(calls.load(Ordering::SeqCst), 0);
}

#[test]
fn helpers_without_context_are_missing_context() {
    assert_eq!(auth_user::<Member>(None), Err(AuthError::MissingContext));
    assert_eq!(auth_check::<Member>(None), Err(AuthError::MissingContext));
    assert_eq!(auth_require::<Member>(None), Err(AuthError::MissingContext));
    assert_eq!(auth_id::<Member>(None), Err(AuthError::MissingContext));
    assert_eq!(auth_require_id::<Member>(None), Err(AuthError::MissingContext));
    assert_eq!(auth_assert::<Member>(None), Err(AuthError::MissingContext));
    assert_eq!(auth_if::<Member, _, u64>(None, |m| m.id), Err(AuthError::MissingContext));
    assert_eq!(auth_can::<Member>(None, "x"), Err(AuthError::MissingContext));
    assert_eq!(auth_can_any::<Member>(None, &["x"]), Err(AuthError::MissingContext));
    assert_eq!(auth_has_role::<Member>(None, "x"), Err(AuthError::MissingContext));
    assert_eq!(auth_has_any_role::<Member>(None, &["x"]), Err(AuthError::MissingContext));
}

#[test]
fn helpers_with_a_signed_in_user() {
    let member = Member::new(12).with_role("editor").with_perm("posts.write");
    let (mut ctx, calls) = counting(Ok(Some(member.clone())));
    assert_eq!(auth_user(Some(&mut ctx)), Ok(Some(member.clone())));
    assert_eq!(auth_check(Some(&mut ctx)), Ok(true));
    assert_eq!(auth_require(Some(&mut ctx)), Ok(member.clone()));
    assert_eq!(auth_id(Some(&mut ctx)), Ok(Some(12)));
    assert_eq!(auth_require_id(Some(&mut ctx)), Ok(12));
    assert_eq!(auth_assert(Some(&mut ctx)), Ok(()));
    assert_eq!(auth_if(Some(&mut ctx), |m: Member| m.id * 2), Ok(Some(24)));
    assert_eq!(auth_can(Some(&mut ctx), "posts.write"), Ok(true));
    assert_eq!(auth_can(Some(&mut ctx), "posts.delete"), Ok(false));
    assert_eq!(auth_can_any(Some(&mut ctx), &["posts.delete", "posts.write"]), Ok(true));
    assert_eq!(auth_can_any(Some(&mut ctx), &[]), Ok(false));
    assert_eq!(auth_has_role(Some(&mut ctx), "editor"), Ok(true));
    assert_eq!(auth_has_role(Some(&mut ctx), "admin"), Ok(false));
    assert_eq!(auth_has_any_role(Some(&mut ctx), &["admin", "editor"]), Ok(true));
    assert_eq!(auth_has_any_role(Some(&mut ctx), &["admin"]), Ok(false));
    assert_eq!(calls.load(Ordering::SeqCst), 1);
}

#[test]
fn helpers_with_nobody_signed_in() {
    let (mut ctx, _) = counting(Ok(None));
    assert_eq!(auth_user(Some(&mut ctx)), Ok(None));
    assert_eq!(auth_check(Some(&mut ctx)), Ok(false));
    assert_eq!(auth_require(Some(&mut ctx)), Err(AuthError::Unauthenticated));
    assert_eq!(auth_id(Some(&mut ctx)), Ok(None));
    assert_eq!(auth_require_id(Some(&mut ctx)), Err(AuthError::Unauthenticated));
    assert_eq!(auth_assert(Some(&mut ctx)), Err(AuthError::Unauthenticated));
    assert_eq!(auth_if(Some(&mut ctx), |m: Member| m.id), Ok(None));
    assert_eq!(auth_can(Some(&mut ctx), "anything"), Ok(false));
    assert_eq!(auth_can_any(Some(&mut ctx), &["a", "b"]), Ok(false));
    assert_eq!(auth_has_role(Some(&mut ctx), "admin"), Ok(false));
    assert_eq!(auth_has_any_role(Some(&mut ctx), &["admin"]), Ok(false));
}

#[test]
fn helpers_pass_on_provider_failures() {
    let err = AuthError::ProviderFailed("jwt".to_string());
    let (mut ctx, _) = counting(Err(err.clone()));
    assert_eq!(auth_check(Some(&mut ctx)), Err(err.clone()));
    assert_eq!(auth_id(Some(&mut ctx)), Err(err.clone()));
    assert_eq!(auth_can(Some(&mut ctx), "x"), Err(err.clone()));
    assert_eq!(auth_has_any_role(Some(&mut ctx), &["x"]), Err(err));
}

#[test]
fn admin_can_do_anything() {
    let (mut ctx, _) = counting(Ok(Some(Member::new(1).with_role("admin"))));
    assert_eq!(auth_can(Some(&mut ctx), "billing.refund"), Ok(true));
}

#[test]
fn sign_in_without_session_is_missing_session() {
    let (mut ctx, calls) = counting(Ok(None));
    assert_eq!(ctx.check(), Ok(false));
    assert_eq!(auth_sign_in(None::<&MemorySession>, Some(&mut ctx), &Member::new(1)), Err(AuthError::MissingSession));
    assert_eq!(auth_sign_out(None::<&MemorySession>, Some(&mut ctx)), Err(AuthError::MissingSession));
    assert_eq!(ctx.check(), Ok(false));
    assert_eq!(calls.load(Ordering::SeqCst), 1);
}

#[test]
fn sign_in_then_context_asks_again() {
    let (mut ctx, calls) = counting(Ok(None));
    let session = MemorySession { signed_in: Mutex::new(None), fail: false };
    assert_eq!(ctx.check(), Ok(false));
    assert_eq!(auth_sign_in(Some(&session), Some(&mut ctx), &Member::new(5)), Ok(()));
    assert_eq!(*session.signed_in.lock().unwrap(), Some(5));
    assert_eq!(ctx.check(), Ok(false));
    assert_eq!(calls.load(Ordering::SeqCst), 2);
    assert_eq!(auth_sign_out(Some(&session), Some(&mut ctx)), Ok(()));
    assert_eq!(*session.signed_in.lock().unwrap(), None);
    assert_eq!(ctx.check(), Ok(false));
    assert_eq!(calls.load(Ordering::SeqCst), 3);
}

#[test]
fn failed_sign_in_keeps_the_context() {
    let (mut ctx, calls) = counting(Ok(None));
    let session = MemorySession { signed_in: Mutex::new(None), fail: true };
    assert_eq!(ctx.check(), Ok(false));
    assert_eq!(
        auth_sign_in(Some(&session), Some(&mut ctx), &Member::new(5)),
        Err(AuthError::ProviderFailed("store".to_string()))
    );
    assert_eq!(ctx.check(), Ok(false));
    assert_eq!(calls.load(Ordering::SeqCst), 1);
}

#[test]
fn sign_in_through_a_shared_session_object() {
    let (mut ctx, _) = counting(Ok(None));
    let session = MemorySession { signed_in: Mutex::new(None), fail: false };
    let shared: &dyn AuthSession<Member> = &session;
    assert_eq!(auth_sign_in(Some(shared), Some(&mut ctx), &Member::new(8)), Ok(()));
    assert_eq!(*session.signed_in.lock().unwrap(), Some(8));
}

#[test]
fn chain_of_one_provider_type() {
    let chain: ChainProvider<Member, FixedProvider<Member>> =
        ChainProvider::new(vec![Box::new(FixedProvider(None)), Box::new(FixedProvider(Some(Member::new(4))))]);
    assert_eq!(chain.user(), Ok(Some(Member::new(4))));
}

#[test]
fn settle_sign_change_without_context() {
    assert_eq!(settle_sign_change::<Member>(Ok(()), None), Ok(()));
    assert_eq!(
        settle_sign_change::<Member>(Err(AuthError::Forbidden), None),
        Err(AuthError::Forbidden)
    );
}

#[test]
fn fixed_provider_answers_its_user() {
    assert_eq!(FixedProvider(Some(Member::new(3))).user(), Ok(Some(Member::new(3))));
    assert_eq!(FixedProvider::<Member>(None).user(), Ok(None));
}

#[test]
fn chain_provider_answers_first_known_user() {
    let first = Arc::new(AtomicUsize::new(0));
    let last = Arc::new(AtomicUsize::new(0));
    let chain = ChainProvider::new(vec![
        Box::new(Counting { calls: first.clone(), answer: Ok(None) }) as Box<dyn AuthProvider<Member>>,
        Box::new(FixedProvider(Some(Member::new(2)))),
        Box::new(Counting { calls: last.clone(), answer: Ok(Some(Member::new(3))) }),
    ]);
    assert_eq!(chain.user(), Ok(Some(Member::new(2))));
    assert_eq!(first.load(Ordering::SeqCst), 1);
    assert_eq!(last.load(Ordering::SeqCst), 0);
}

#[test]
fn chain_provider_stops_at_a_failure() {
    let chain = ChainProvider::new(vec![
        Box::new(FixedProvider::<Member>(None)) as Box<dyn AuthProvider<Member>>,
        Box::new(Counting { calls: Arc::new(AtomicUsize::new(0)), answer: Err(AuthError::Forbidden) }),
        Box::new(FixedProvider(Some(Member::new(2)))),
    ]);
    assert_eq!(chain.user(), Err(AuthError::Forbidden));
}

#[test]
fn chain_provider_of_nobody_is_nobody() {
    let chain = ChainProvider::new(vec![
        Box::new(FixedProvider::<Member>(None)) as Box<dyn AuthProvider<Member>>,
        Box::new(FixedProvider(None)),
    ]);
    assert_eq!(chain.user(), Ok(None));
    let empty: ChainProvider<Member> = ChainProvider::new(vec![]);
    assert_eq!(empty.user(), Ok(None));
}

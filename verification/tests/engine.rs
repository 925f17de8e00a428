use tetthys_auth::contracts::AuthError;
use tetthys_auth::engine::{
    copy_outcome, AuthEngine, RequireStep, SessionAction, UserIdStep, UserStep,
};
use tetthys_auth::providers::{ChainStep, ChainUserIdProvider, FixedUserIdProvider};
use tetthys_auth::require_engine;
use tetthys_auth::scope::get_engine;

type Engine = AuthEngine<u64, String, &'static str, &'static str, &'static str>;

fn full_engine() -> Engine {
    AuthEngine::new("ids", Some("users"), Some("session"))
}

fn signed_in_as(e: &mut Engine, id: u64) {
    assert_eq!(e.user_id(), UserIdStep::AskProvider);
    assert_eq!(e.finish_user_id(Ok(Some(id))), Ok(Some(id)));
}

#[test]
fn engine_asks_the_provider_once() {
    let mut e = full_engine();
    signed_in_as(&mut e, 7);
    assert_eq!(e.user_id(), UserIdStep::Ready(Ok(Some(7))));
    assert_eq!(e.user_id(), UserIdStep::Ready(Ok(Some(7))));
}

#[test]
fn engine_caches_nobody() {
    let mut e = full_engine();
    assert_eq!(e.finish_user_id(Ok(None)), Ok(None));
    assert_eq!(e.user_id(), UserIdStep::Ready(Ok(None)));
}

#[test]
fn engine_caches_a_provider_failure() {
    let mut e = full_engine();
    let err = AuthError::ProviderFailed("down".to_string());
    assert_eq!(e.finish_user_id(Err(err.clone())), Err(err.clone()));
    assert_eq!(e.user_id(), UserIdStep::Ready(Err(err)));
}

#[test]
fn engine_invalidate_asks_again() {
    let mut e = full_engine();
    signed_in_as(&mut e, 7);
    e.invalidate_cache();
    assert_eq!(e.user_id(), UserIdStep::AskProvider);
    assert_eq!(e.finish_user_id(Ok(Some(8))), Ok(Some(8)));
    assert_eq!(e.user_id(), UserIdStep::Ready(Ok(Some(8))));
}

#[test]
fn engine_without_loader_answers_nobody() {
    let mut e: Engine = AuthEngine::new("ids", None, Some("session"));
    signed_in_as(&mut e, 3);
    assert_eq!(e.user(), UserStep::Ready(Ok(None)));
    assert_eq!(e.user(), UserStep::Ready(Ok(None)));
}

#[test]
fn engine_user_loads_the_signed_in_id() {
    let mut e = full_engine();
    assert_eq!(e.user(), UserStep::NeedUserId);
    signed_in_as(&mut e, 3);
    assert_eq!(e.continue_user(Ok(Some(3))), UserStep::LoadUser(3));
    assert_eq!(e.finish_user(Ok(Some("ann".to_string()))), Ok(Some("ann".to_string())));
    assert_eq!(e.user(), UserStep::Ready(Ok(Some("ann".to_string()))));
    assert_eq!(e.user_id(), UserIdStep::Ready(Ok(Some(3))));
}

#[test]
fn engine_missing_user_record_is_nobody() {
    let mut e = full_engine();
    assert_eq!(e.user(), UserStep::NeedUserId);
    signed_in_as(&mut e, 11);
    assert_eq!(e.continue_user(Ok(Some(11))), UserStep::LoadUser(11));
    assert_eq!(e.finish_user(Ok(None)), Ok(None));
    assert_eq!(e.user(), UserStep::Ready(Ok(None)));
    assert_eq!(e.require(Ok(None)), RequireStep::NeedUserId);
    assert_eq!(e.finish_require(Ok(Some(11))), Err(AuthError::UserNotFound));
}

#[test]
fn engine_user_of_nobody_is_nobody_and_cached() {
    let mut e = full_engine();
    assert_eq!(e.user(), UserStep::NeedUserId);
    assert_eq!(e.continue_user(Ok(None)), UserStep::Ready(Ok(None)));
    assert_eq!(e.user(), UserStep::Ready(Ok(None)));
}

#[test]
fn engine_user_id_failure_is_not_cached_as_user() {
    let mut e = full_engine();
    assert_eq!(e.user(), UserStep::NeedUserId);
    let err = AuthError::ProviderFailed("token".to_string());
    assert_eq!(e.continue_user(Err(err.clone())), UserStep::Ready(Err(err)));
    assert_eq!(e.user(), UserStep::NeedUserId);
}

#[test]
fn engine_loader_failure_is_cached() {
    let mut e = full_engine();
    signed_in_as(&mut e, 2);
    let err = AuthError::LoaderFailed("db".to_string());
    assert_eq!(e.finish_user(Err(err.clone())), Err(err.clone()));
    assert_eq!(e.user(), UserStep::Ready(Err(err)));
}

#[test]
fn engine_record_without_signed_in_id_is_not_cached() {
    let mut e = full_engine();
    assert_eq!(e.finish_user(Ok(Some("eve".to_string()))), Ok(Some("eve".to_string())));
    assert_eq!(e.user(), UserStep::NeedUserId);
    signed_in_as(&mut e, 1);
    e.invalidate_cache();
    assert_eq!(e.finish_user(Ok(Some("late".to_string()))), Ok(Some("late".to_string())));
    assert_eq!(e.user(), UserStep::NeedUserId);
}

#[test]
fn engine_without_loader_never_loads() {
    let mut e: Engine = AuthEngine::new("ids", None, Some("session"));
    assert_eq!(e.continue_user(Ok(Some(4))), UserStep::Ready(Ok(None)));
    signed_in_as(&mut e, 4);
    assert_eq!(e.finish_user(Ok(Some("x".to_string()))), Ok(Some("x".to_string())));
    assert_eq!(e.user(), UserStep::Ready(Ok(None)));
}

#[test]
fn engine_first_user_id_answer_is_kept() {
    let mut e = full_engine();
    signed_in_as(&mut e, 7);
    assert_eq!(e.finish_user_id(Ok(None)), Ok(None));
    assert_eq!(e.user_id(), UserIdStep::Ready(Ok(Some(7))));
}

#[test]
fn engine_sign_in_without_session_is_missing_session() {
    let e: Engine = AuthEngine::new("ids", Some("users"), None);
    assert_eq!(e.sign_in_by_user_id(&4), Err(AuthError::MissingSession));
    assert_eq!(e.sign_out(), Err(AuthError::MissingSession));
    assert!(e.session().is_none());
}

#[test]
fn engine_sign_in_success_forgets() {
    let mut e = full_engine();
    signed_in_as(&mut e, 1);
    assert_eq!(e.finish_user(Ok(Some("bob".to_string()))), Ok(Some("bob".to_string())));
    assert_eq!(e.sign_in_by_user_id(&2), Ok(SessionAction::SignIn(2)));
    assert_eq!(e.finish_session_change(Ok(())), Ok(()));
    assert_eq!(e.user_id(), UserIdStep::AskProvider);
    assert_eq!(e.user(), UserStep::NeedUserId);
}

#[test]
fn engine_sign_in_failure_keeps_the_cache() {
    let mut e = full_engine();
    signed_in_as(&mut e, 1);
    let err = AuthError::SessionFailed("cookie".to_string());
    assert_eq!(e.sign_out(), Ok(SessionAction::SignOut));
    assert_eq!(e.finish_session_change(Err(err.clone())), Err(err));
    assert_eq!(e.user_id(), UserIdStep::Ready(Ok(Some(1))));
}

#[test]
fn engine_hands_out_its_collaborators() {
    let e = full_engine();
    assert_eq!(*e.user_id_provider(), "ids");
    assert_eq!(*e.user_loader(), Some("users"));
    assert_eq!(*e.session(), Some("session"));
}

#[test]
fn check_and_require_answers() {
    let e = full_engine();
    assert_eq!(e.check(Ok(Some(1))), Ok(true));
    assert_eq!(e.check(Ok(None)), Ok(false));
    assert_eq!(e.check(Err(AuthError::MissingSession)), Err(AuthError::MissingSession));
    assert_eq!(e.require_user_id(Ok(Some(4))), Ok(4));
    assert_eq!(e.require_user_id(Ok(None)), Err(AuthError::Unauthenticated));
    assert_eq!(
        e.require_user_id(Err(AuthError::LoaderFailed("x".to_string()))),
        Err(AuthError::LoaderFailed("x".to_string()))
    );
}

#[test]
fn require_with_a_record() {
    let e = full_engine();
    assert_eq!(e.require(Ok(Some("ann".to_string()))), RequireStep::Ready(Ok("ann".to_string())));
    let err = AuthError::LoaderFailed("db".to_string());
    assert_eq!(e.require(Err(err.clone())), RequireStep::Ready(Err(err)));
    assert_eq!(e.require(Ok(None)), RequireStep::NeedUserId);
}

#[test]
fn require_nobody_signed_in_is_unauthenticated() {
    let e = full_engine();
    assert_eq!(e.finish_require(Ok(None)), Err(AuthError::Unauthenticated));
    let err = AuthError::ProviderFailed("jwt".to_string());
    assert_eq!(e.finish_require(Err(err.clone())), Err(err));
}

#[test]
fn require_signed_in_without_record_is_not_unauthenticated() {
    let mut with_loader = full_engine();
    signed_in_as(&mut with_loader, 3);
    assert_eq!(with_loader.continue_user(Ok(Some(3))), UserStep::LoadUser(3));
    assert_eq!(with_loader.finish_user(Ok(None)), Ok(None));
    assert_eq!(with_loader.require(Ok(None)), RequireStep::NeedUserId);
    assert_eq!(with_loader.finish_require(Ok(Some(3))), Err(AuthError::UserNotFound));

    let mut without_loader: Engine = AuthEngine::new("ids", None, None);
    assert_eq!(without_loader.user(), UserStep::Ready(Ok(None)));
    signed_in_as(&mut without_loader, 1);
    assert_eq!(without_loader.finish_require(Ok(Some(1))), Err(AuthError::MissingLoader));
}

#[test]
fn copies_of_answers_are_equal() {
    let a: Result<Option<String>, AuthError> = Ok(Some("x".to_string()));
    assert_eq!(copy_outcome(&a), a);
    let b: Result<Option<String>, AuthError> = Err(AuthError::SessionFailed("s".to_string()));
    assert_eq!(copy_outcome(&b), b);
    assert_eq!(AuthError::MissingContext.duplicate(), AuthError::MissingContext);
}

#[test]
fn missing_engine_is_missing_context() {
    assert_eq!(require_engine::<u8>(None), Err(AuthError::MissingContext));
    assert_eq!(require_engine(Some(5u8)), Ok(5));
}

#[test]
fn context_engine_comes_before_thread_engine() {
    assert_eq!(get_engine(Some(1), Some(2)), Some(1));
    assert_eq!(get_engine(None, Some(2)), Some(2));
    assert_eq!(get_engine::<u8>(None, None), None);
}

#[test]
fn fixed_user_id_provider_answers_its_id() {
    assert_eq!(FixedUserIdProvider::new(Some(9u64)).answer(), Ok(Some(9)));
    assert_eq!(FixedUserIdProvider::<u64>::new(None).answer(), Ok(None));
}

#[test]
fn chain_steps() {
    let chain = ChainUserIdProvider::new(vec!["a", "b"]);
    assert_eq!(chain.providers().len(), 2);
    assert_eq!(chain.start::<u64>(), ChainStep::Ask(0));
    assert_eq!(chain.step::<u64>(0, Ok(None)), ChainStep::Ask(1));
    assert_eq!(chain.step::<u64>(1, Ok(None)), ChainStep::Done(Ok(None)));
    assert_eq!(chain.step::<u64>(0, Ok(Some(2))), ChainStep::Done(Ok(Some(2))));
    assert_eq!(
        chain.step::<u64>(0, Err(AuthError::ProviderFailed("p".to_string()))),
        ChainStep::Done(Err(AuthError::ProviderFailed("p".to_string())))
    );
    let empty: ChainUserIdProvider<&str> = ChainUserIdProvider::new(vec![]);
    assert_eq!(empty.start::<u64>(), ChainStep::Done(Ok(None)));
}

fn run_chain(chain: &ChainUserIdProvider<FixedUserIdProvider<u64>>) -> (Result<Option<u64>, AuthError>, usize) {
    let mut asked = 0;
    let mut step = chain.start();
    loop {
        match step {
            ChainStep::Ask(i) => {
                asked += 1;
                step = chain.step(i, chain.providers()[i].answer());
            }
            ChainStep::Done(r) => return (r, asked),
        }
    }
}

#[test]
fn chain_run_answers_first_known_id() {
    let chain = ChainUserIdProvider::new(vec![
        FixedUserIdProvider::new(None),
        FixedUserIdProvider::new(Some(5u64)),
        FixedUserIdProvider::new(Some(6u64)),
    ]);
    assert_eq!(run_chain(&chain), (Ok(Some(5)), 2));
    let nobody = ChainUserIdProvider::new(vec![FixedUserIdProvider::new(None), FixedUserIdProvider::new(None)]);
    assert_eq!(run_chain(&nobody), (Ok(None), 2));
}

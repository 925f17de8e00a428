//! User-id providers for the request-scoped engine.
//!
//! The providers themselves answer asynchronously; what is decided here is
//! the answer of a fixed provider and when a chain of providers stops asking.

use vstd::prelude::*;
use crate::contracts::AuthError;
use crate::outcome::copy_of_outcome;
use crate::provider::chain::{chain_answered, lemma_first_answer};

verus! {

/// Always answers (a clone of) the id it holds, or nobody.
pub struct FixedUserIdProvider<UserId>(pub Option<UserId>);

impl<UserId> FixedUserIdProvider<UserId> {
    pub fn new(id: Option<UserId>) -> (p: Self)
        ensures
            p.0 == id,
    {
        Self(id)
    }
}

impl<UserId: Clone> FixedUserIdProvider<UserId> {
    /// The provider's answer: the id it holds (cloned), never a failure.
    pub fn answer(&self) -> (r: Result<Option<UserId>, AuthError>)
        ensures
            copy_of_outcome(Ok::<Option<UserId>, AuthError>(self.0), r),
    {
        match &self.0 {
            Some(id) => Ok(Some(id.clone())),
            None => Ok(None),
        }
    }
}

/// What a chain asks the caller to do next.
#[derive(Debug, PartialEq, Eq)]
pub enum ChainStep<UserId> {
    /// Ask the member at this index, then hand its answer to `step`.
    Ask(usize),
    /// The chain's answer.
    Done(Result<Option<UserId>, AuthError>),
}

/// How a chain of `n` members starts: with no members the answer is
/// "nobody", else the first member is asked.
pub open spec fn chain_start<UserId>(n: nat) -> ChainStep<UserId> {
    if n == 0 {
        ChainStep::Done(Ok(None))
    } else {
        ChainStep::Ask(0)
    }
}

/// What a chain of `n` members does with the answer of member `i`: an answer
/// other than "nobody" is the chain's answer; after "nobody" the next member
/// is asked, and after the last member the answer is "nobody".
pub open spec fn chain_next<UserId>(n: nat, i: int, answer: Result<Option<UserId>, AuthError>) -> ChainStep<UserId> {
    if answer != Ok::<Option<UserId>, AuthError>(None) {
        ChainStep::Done(answer)
    } else if i + 1 < n {
        ChainStep::Ask((i + 1) as usize)
    } else {
        ChainStep::Done(Ok(None))
    }
}

/// Asks its member providers in turn and answers with the first that knows
/// the user id or fails; "nobody" when none does.
pub struct ChainUserIdProvider<P> {
    providers: Vec<P>,
}

impl<P> ChainUserIdProvider<P> {
    /// The members, in the order they are asked.
    pub closed spec fn members(&self) -> Seq<P> {
        self.providers@
    }

    pub fn new(providers: Vec<P>) -> (c: Self)
        ensures
            c.members() == providers@,
    {
        Self { providers }
    }

    /// The members, in the order they are asked.
    pub fn providers(&self) -> (v: &Vec<P>)
        ensures
            v@ == self.members(),
    {
        &self.providers
    }

    /// The first step of a lookup.
    pub fn start<UserId>(&self) -> (s: ChainStep<UserId>)
        ensures
            s == chain_start::<UserId>(self.members().len()),
    {
        if self.providers.len() == 0 {
            ChainStep::Done(Ok(None))
        } else {
            ChainStep::Ask(0)
        }
    }

    /// The step after member `asked` answered `answer`.
    pub fn step<UserId>(&self, asked: usize, answer: Result<Option<UserId>, AuthError>) -> (s: ChainStep<UserId>)
        ensures
            s == chain_next(self.members().len(), asked as int, answer),
    {
        match answer {
            Ok(None) => {
                if asked < self.providers.len() && asked + 1 < self.providers.len() {
                    ChainStep::Ask(asked + 1)
                } else {
                    ChainStep::Done(Ok(None))
                }
            },
            other => ChainStep::Done(other),
        }
    }
}

/// Law: running the chain's steps gives the chain's answer. Starting, then
/// asking the members in the order the steps say and handing each answer to
/// `step`: a chain without members answers "nobody"; otherwise each `Ask`
/// names the next member, and when the steps are `Done` the answers given so
/// far are those of a chain that stopped at the first answer other than
/// "nobody" (or ran out of members), and the result is `first_answer` of
/// them.
pub proof fn lemma_chain_run<UserId>(answers: Seq<Result<Option<UserId>, AuthError>>, n: nat)
    requires
        answers.len() <= n <= usize::MAX,
        forall|i: int| 0 <= i < answers.len() - 1 ==> answers[i] == Ok::<Option<UserId>, AuthError>(None),
    ensures
        n == 0 ==> chain_start::<UserId>(n) == ChainStep::<UserId>::Done(Ok(None))
            && chain_answered(Seq::<Result<Option<UserId>, AuthError>>::empty(), n, Ok(None)),
        n > 0 ==> chain_start::<UserId>(n) == ChainStep::<UserId>::Ask(0),
        answers.len() > 0 ==> match chain_next(n, answers.len() - 1, answers.last()) {
            ChainStep::Done(r) => chain_answered(answers, n, r),
            ChainStep::Ask(j) => j == answers.len() && j < n && answers.last() == Ok::<Option<UserId>, AuthError>(None),
        },
{
    lemma_first_answer(answers);
    lemma_first_answer(Seq::<Result<Option<UserId>, AuthError>>::empty());
    if answers.len() > 0 {
        let k = answers.len() - 1;
        assert(answers.last() == answers[k]);
        if answers[k] == Ok::<Option<UserId>, AuthError>(None) {
            assert forall|i: int| 0 <= i < answers.len() implies answers[i] == Ok::<Option<UserId>, AuthError>(None) by {
                if i < k {
                } else {
                    assert(i == k);
                }
            }
        }
    }
}

} // verus!

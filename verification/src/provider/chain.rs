//! A provider that asks several providers in turn.

use std::marker::PhantomData;
use vstd::prelude::*;
use super::AuthProvider;
use crate::authenticatable::Authenticatable;
use crate::error::AuthError;

verus! {

/// The answer of a chain whose members answered `answers`, in order: the
/// first answer that is not "nobody" (a user or a failure), else "nobody".
pub open spec fn first_answer<T, E>(answers: Seq<Result<Option<T>, E>>) -> Result<Option<T>, E>
    decreases answers.len(),
{
    if answers.len() == 0 {
        Ok(None)
    } else if answers[0] == Ok::<Option<T>, E>(None) {
        first_answer(answers.drop_first())
    } else {
        answers[0]
    }
}

/// `answers` is what a chain of `n` members was told when it answered `r`:
/// members were asked in order, all but the last said "nobody", asking
/// stopped early only at an answer other than "nobody", and `r` is the
/// chain's answer.
pub open spec fn chain_answered<T, E>(answers: Seq<Result<Option<T>, E>>, n: nat, r: Result<Option<T>, E>) -> bool {
    &&& answers.len() <= n
    &&& forall|i: int| 0 <= i < answers.len() - 1 ==> answers[i] == Ok::<Option<T>, E>(None)
    &&& answers.len() < n ==> answers.len() > 0 && answers.last() != Ok::<Option<T>, E>(None)
    &&& r == first_answer(answers)
}

/// Law: the chain answers the first member answer that is not "nobody", and
/// "nobody" exactly when every member said "nobody".
pub proof fn lemma_first_answer<T, E>(answers: Seq<Result<Option<T>, E>>)
    ensures
        first_answer(answers) == Ok::<Option<T>, E>(None) <==> forall|i: int|
            0 <= i < answers.len() ==> answers[i] == Ok::<Option<T>, E>(None),
        forall|k: int|
            0 <= k < answers.len() && answers[k] != Ok::<Option<T>, E>(None) && (forall|i: int|
                0 <= i < k ==> answers[i] == Ok::<Option<T>, E>(None)) ==> first_answer(answers)
                == answers[k],
    decreases answers.len(),
{
    if answers.len() > 0 {
        let rest = answers.drop_first();
        lemma_first_answer(rest);
        assert forall|k: int|
            0 <= k < answers.len() && answers[k] != Ok::<Option<T>, E>(None) && (forall|i: int|
                0 <= i < k ==> answers[i] == Ok::<Option<T>, E>(None)) implies first_answer(answers)
            == answers[k] by {
            if k > 0 {
                assert(answers[0] == Ok::<Option<T>, E>(None));
                assert(rest[k - 1] == answers[k]);
                assert forall|i: int| 0 <= i < k - 1 implies rest[i] == Ok::<Option<T>, E>(None) by {
                    assert(rest[i] == answers[i + 1]);
                }
            }
        }
        if forall|i: int| 0 <= i < answers.len() ==> answers[i] == Ok::<Option<T>, E>(None) {
            assert forall|i: int| 0 <= i < rest.len() implies rest[i] == Ok::<Option<T>, E>(None) by {
                assert(rest[i] == answers[i + 1]);
            }
        }
        if first_answer(answers) == Ok::<Option<T>, E>(None) {
            assert(answers[0] == Ok::<Option<T>, E>(None));
            assert forall|i: int| 0 <= i < answers.len() implies answers[i] == Ok::<Option<T>, E>(None) by {
                if i > 0 {
                    assert(rest[i - 1] == answers[i]);
                }
            }
        }
    }
}

/// Asks its members in order and answers with the first that knows the user
/// or fails.
#[verifier::reject_recursive_types(U)]
#[verifier::reject_recursive_types(P)]
pub struct ChainProvider<U: Authenticatable, P: AuthProvider<U> + ?Sized = dyn AuthProvider<U>> {
    providers: Vec<Box<P>>,
    answers: PhantomData<U>,
}

impl<U: Authenticatable, P: AuthProvider<U> + ?Sized> ChainProvider<U, P> {
    /// The members, in the order they are asked.
    pub closed spec fn members(&self) -> Seq<Box<P>> {
        self.providers@
    }

    /// The number of members.
    pub open spec fn len(&self) -> nat {
        self.members().len()
    }

    /// `answers[i]` is what member `i` answered, for every answer.
    pub open spec fn answered_by_members(&self, answers: Seq<Result<Option<U>, AuthError>>) -> bool {
        forall|i: int| 0 <= i < answers.len() ==> call_ensures(P::user, (&*self.members()[i],), #[trigger] answers[i])
    }

    pub fn new(providers: Vec<Box<P>>) -> (c: Self)
        ensures
            c.members() == providers@,
    {
        Self { providers, answers: PhantomData }
    }
}

impl<U: Authenticatable, P: AuthProvider<U> + ?Sized> AuthProvider<U> for ChainProvider<U, P> {
    fn user(&self) -> (r: Result<Option<U>, AuthError>)
        ensures
            exists|answers: Seq<Result<Option<U>, AuthError>>|
                chain_answered(answers, self.len(), r) && self.answered_by_members(answers),
    {
        let ghost mut answers: Seq<Result<Option<U>, AuthError>> = Seq::empty();
        let mut i: usize = 0;
        while i < self.providers.len()
            invariant
                i <= self.providers@.len(),
                answers.len() == i,
                forall|j: int| 0 <= j < i ==> answers[j] == Ok::<Option<U>, AuthError>(None),
                self.answered_by_members(answers),
            decreases self.providers@.len() - i,
        {
            let a = self.providers[i].user();
            proof {
                answers = answers.push(a);
            }
            match a {
                Ok(None) => {},
                other => {
                    proof {
                        lemma_first_answer(answers);
                        assert(answers[i as int] == other);
                        assert(chain_answered(answers, self.len(), other));
                        assert(self.answered_by_members(answers));
                    }
                    return other;
                },
            }
            i = i + 1;
        }
        proof {
            lemma_first_answer(answers);
            assert(chain_answered(answers, self.len(), Ok(None)));
        }
        Ok(None)
    }
}

} // verus!

//! What a run of runtime calls comes to: calls are made in order, the run stops at the
//! first call that fails and ends with its error, and succeeds when every call does.
use vstd::prelude::*;

use crate::error::{error_of_errno, ZmqError, ZmqResult};

verus! {

/// The next step of a run of calls: the call to make next (by its position), or the
/// outcome of the run.
#[derive(Debug, Clone, Copy, PartialEq, Eq)]
pub enum CallStep {
    /// make the call at this position next
    Make(usize),
    /// the run is over, with this outcome
    Done(ZmqResult<()>),
}

/// The position of the first failed status, if one failed.
pub open spec fn first_failure(statuses: Seq<Result<(), i32>>) -> Option<int>
    decreases statuses.len(),
{
    if statuses.len() == 0 {
        None
    } else {
        match first_failure(statuses.drop_last()) {
            Some(i) => Some(i),
            None => if statuses.last() is Err {
                Some(statuses.len() - 1)
            } else {
                None
            },
        }
    }
}

/// The step of a run of `total` calls after the calls whose statuses are `statuses`: once
/// a call failed the run is over with that call's error; otherwise the next call is made,
/// and when all `total` calls succeeded the run is over with success.
pub open spec fn call_step_spec(statuses: Seq<Result<(), i32>>, total: nat) -> CallStep {
    match first_failure(statuses) {
        Some(i) => CallStep::Done(Err(error_of_errno(statuses[i]->Err_0))),
        None => if statuses.len() < total {
            CallStep::Make(statuses.len() as usize)
        } else {
            CallStep::Done(Ok(()))
        },
    }
}

/// The first failed status is the first status that is an error.
pub proof fn lemma_first_failure(statuses: Seq<Result<(), i32>>)
    ensures
        match first_failure(statuses) {
            Some(k) => 0 <= k < statuses.len() && statuses[k] is Err
                && forall|i: int| 0 <= i < k ==> #[trigger] statuses[i] is Ok,
            None => forall|i: int| 0 <= i < statuses.len() ==> #[trigger] statuses[i] is Ok,
        },
    decreases statuses.len(),
{
    if statuses.len() > 0 {
        let prev = statuses.drop_last();
        lemma_first_failure(prev);
        assert forall|i: int| 0 <= i < prev.len() implies prev[i] == statuses[i] by {}
    }
}

/// The next step of a run of `total` calls, after the calls whose statuses are `statuses`
/// (see [`call_step_spec`]).
pub fn next_call(statuses: &Vec<Result<(), i32>>, total: usize) -> (s: CallStep)
    ensures
        s == call_step_spec(statuses@, total as nat),
{
    proof {
        lemma_first_failure(statuses@);
    }
    let mut i: usize = 0;
    while i < statuses.len()
        invariant
            i <= statuses.len(),
            forall|j: int| 0 <= j < i ==> #[trigger] statuses@[j] is Ok,
            match first_failure(statuses@) {
                Some(k) => 0 <= k < statuses@.len() && statuses@[k] is Err
                    && forall|j: int| 0 <= j < k ==> #[trigger] statuses@[j] is Ok,
                None => forall|j: int| 0 <= j < statuses@.len() ==> #[trigger] statuses@[j] is Ok,
            },
        decreases statuses.len() - i,
    {
        match &statuses[i] {
            Err(code) => {
                let ghost k = first_failure(statuses@)->0;
                assert(first_failure(statuses@) is Some) by {
                    if first_failure(statuses@) is None {
                        assert(statuses@[i as int] is Ok);
                    }
                }
                assert(k == i) by {
                    if k < i {
                        assert(statuses@[k] is Ok);
                    } else if k > i {
                        assert(statuses@[i as int] is Ok);
                    }
                }
                return CallStep::Done(Err(ZmqError::from(*code)));
            },
            Ok(()) => {},
        }
        i = i + 1;
    }
    assert(first_failure(statuses@) is None) by {
        if first_failure(statuses@) is Some {
            let ghost k = first_failure(statuses@)->0;
            assert(statuses@[k] is Ok);
        }
    }
    if statuses.len() < total {
        CallStep::Make(statuses.len())
    } else {
        CallStep::Done(Ok(()))
    }
}

/// A run of calls whose answers are `answers` makes the calls in order up to and including
/// the first that fails, and no later one; it ends with that call's error, or with success
/// exactly when every call succeeds.
pub proof fn lemma_calls_stop_at_first_failure(answers: Seq<Result<(), i32>>)
    requires
        answers.len() <= usize::MAX,
    ensures
        ({
            let total = answers.len();
            let made = match first_failure(answers) {
                Some(k) => k + 1,
                None => total as int,
            };
            &&& forall|j: int| 0 <= j < made ==> call_step_spec(#[trigger] answers.take(j), total) == CallStep::Make(j as usize)
            &&& call_step_spec(answers.take(made), total) == CallStep::Done(match first_failure(answers) {
                Some(k) => Err(error_of_errno(answers[k]->Err_0)),
                None => Ok(()),
            })
        }),
        first_failure(answers) is None <==> forall|i: int| 0 <= i < answers.len() ==> #[trigger] answers[i] is Ok,
{
    let total = answers.len();
    lemma_first_failure(answers);
    let made = match first_failure(answers) {
        Some(k) => k + 1,
        None => total as int,
    };
    assert forall|j: int| 0 <= j < made implies call_step_spec(#[trigger] answers.take(j), total) == CallStep::Make(j as usize) by {
        let prefix = answers.take(j);
        lemma_first_failure(prefix);
        if first_failure(prefix) is Some {
            let k2 = first_failure(prefix)->0;
            assert(prefix[k2] == answers[k2]);
            assert(answers[k2] is Ok);
        }
    }
    let last = answers.take(made);
    lemma_first_failure(last);
    match first_failure(answers) {
        Some(k) => {
            assert(last[k] == answers[k]);
            if first_failure(last) is None {
                assert(last[k] is Ok);
            }
            let k2 = first_failure(last)->0;
            if k2 < k {
                assert(last[k2] == answers[k2]);
            }
            assert(k2 == k);
        },
        None => {
            assert(last =~= answers);
        },
    }
}

} // verus!

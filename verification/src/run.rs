//! Whole calls: the engine run over the outcomes of successive attempts, and
//! what holds of every such run.
//!
//! A call is modelled by the sequence of outcomes that its attempts would
//! produce, in order. [`run`] feeds them to the engine one by one, as a caller
//! of [`crate::retry::RetryState::on_outcome`] does, and records the wait
//! before every retry.

use crate::backoff::{backoff_secs, lemma_total_backoff, total_backoff_secs, BASE_DELAY_SECS};
use crate::retry::{Failure, Outcome, RetryView, StepView, Verdict};
use crate::status::{is_server_error, is_success};
use vstd::arithmetic::power2::pow2;
use vstd::prelude::*;

verus! {

/// How a call went.
pub enum Run<R, E> {
    /// The call ended with `result`, after the waits `waits`, in seconds and in order.
    Done { result: Result<R, Failure<R, E>>, waits: Seq<nat> },
    /// The outcomes ran out while the engine still asked for another attempt.
    Pending { state: RetryView, waits: Seq<nat> },
}

impl<R, E> Run<R, E> {
    /// The waits of the call, in seconds: one before every retry, in order.
    pub open spec fn waits(self) -> Seq<nat> {
        match self {
            Run::Done { waits, .. } => waits,
            Run::Pending { waits, .. } => waits,
        }
    }

    /// The attempts that the call made: the first one and one after every wait.
    /// A pending call has waited for an attempt that it has not made yet.
    pub open spec fn attempts(self) -> nat {
        match self {
            Run::Done { waits, .. } => waits.len() + 1,
            Run::Pending { waits, .. } => waits.len(),
        }
    }

    /// The wait before attempt number `k`, counted from one. Nothing is waited
    /// for before the first attempt.
    pub open spec fn wait_before(self, k: nat) -> nat {
        if 2 <= k <= self.waits().len() + 1 {
            self.waits()[k - 2]
        } else {
            0
        }
    }

    /// The seconds that the call waited in all.
    pub open spec fn total_wait(self) -> nat {
        sum(self.waits())
    }
}

/// The sum of a sequence of waits.
pub open spec fn sum(waits: Seq<nat>) -> nat
    decreases waits.len(),
{
    if waits.len() == 0 {
        0
    } else {
        sum(waits.drop_last()) + waits.last()
    }
}

/// The waits before `count` retries in a row, the first of them after `done`
/// retries already made.
pub open spec fn backoff_schedule(done: nat, count: nat) -> Seq<nat> {
    Seq::new(count, |i: int| backoff_secs((done + 1 + i) as nat))
}

/// The rest of a call: the engine in `state`, having waited `waits`, is fed `outcomes`.
pub open spec fn run_from<R, E>(
    state: RetryView,
    waits: Seq<nat>,
    outcomes: Seq<Outcome<R, E>>,
) -> Run<R, E>
    decreases outcomes.len(),
{
    if outcomes.len() == 0 {
        Run::Pending { state, waits }
    } else {
        match state.next_step(outcomes.first()) {
            StepView::Deliver(response) => Run::Done { result: Ok(response), waits },
            StepView::Fail(failure) => Run::Done { result: Err(failure), waits },
            StepView::Retry(next) => run_from(
                next,
                waits.push(backoff_secs(next.attempts)),
                outcomes.drop_first(),
            ),
        }
    }
}

/// A call under a budget of `max_retries` retries whose attempts produce `outcomes`.
pub open spec fn run<R, E>(max_retries: nat, outcomes: Seq<Outcome<R, E>>) -> Run<R, E> {
    run_from(RetryView { attempts: 0, max_retries }, Seq::empty(), outcomes)
}

/// A call ends on its first attempt when the engine does not answer that
/// attempt with a retry: with the response if it is a success, else with the
/// outcome as the failure, and without any wait.
pub proof fn lemma_first_attempt_decides<R, E>(max_retries: nat, outcomes: Seq<Outcome<R, E>>)
    requires
        outcomes.len() >= 1,
        (RetryView { attempts: 0, max_retries }).verdict(outcomes[0]) != Verdict::Retry,
    ensures
        run(max_retries, outcomes) == (Run::<R, E>::Done {
            result: if outcomes[0].is_success() {
                Ok(outcomes[0]->response)
            } else {
                Err(outcomes[0].as_failure(0))
            },
            waits: Seq::empty(),
        }),
        run(max_retries, outcomes).attempts() == 1,
        run(max_retries, outcomes).total_wait() == 0,
{
}

/// A run of transient failures uses up what is left of the budget and then
/// fails: from a state with `left` retries to go, `left + 1` outcomes are
/// consumed, the last of them is the failure, and before every attempt but the
/// first of them the backoff delay for its count is waited.
pub proof fn lemma_transient_failures_use_up_budget<R, E>(
    state: RetryView,
    waits: Seq<nat>,
    outcomes: Seq<Outcome<R, E>>,
)
    requires
        state.within_budget(),
        outcomes.len() > state.max_retries - state.attempts,
        forall|i: int|
            0 <= i <= state.max_retries - state.attempts ==> (#[trigger] outcomes[i]).is_transient(),
    ensures
        run_from(state, waits, outcomes) == (Run::Done {
            result: Err(
                outcomes[state.max_retries - state.attempts].as_failure(state.max_retries),
            ),
            waits: waits + backoff_schedule(
                state.attempts,
                (state.max_retries - state.attempts) as nat,
            ),
        }),
    decreases state.max_retries - state.attempts,
{
    let left = (state.max_retries - state.attempts) as nat;
    assert(outcomes[0].is_transient());
    if left == 0 {
        assert(waits + backoff_schedule(state.attempts, 0) =~= waits);
    } else {
        let next = state.retried();
        let rest = outcomes.drop_first();
        let waited = waits.push(backoff_secs(next.attempts));
        assert forall|i: int| 0 <= i <= next.max_retries - next.attempts implies (#[trigger] rest[i]).is_transient() by {
            assert(rest[i] == outcomes[i + 1]);
        }
        lemma_transient_failures_use_up_budget(next, waited, rest);
        assert(rest[left - 1] == outcomes[left as int]);
        assert(waited + backoff_schedule(next.attempts, (left - 1) as nat) =~= waits
            + backoff_schedule(state.attempts, left));
    }
}

/// Whatever the outcomes are, the engine stays within its budget and keeps to
/// the backoff schedule: where the waits so far are those of the retries
/// counted so far, so are the waits of the whole run; a pending run has waited
/// once for every retry that its state counts; a failure counts the retries
/// that were waited for; and no run retries more often than its budget allows.
pub proof fn lemma_run_keeps_schedule<R, E>(
    state: RetryView,
    waits: Seq<nat>,
    outcomes: Seq<Outcome<R, E>>,
)
    requires
        state.within_budget(),
        state.max_retries <= usize::MAX,
        waits == backoff_schedule(0, state.attempts),
    ensures
        run_from(state, waits, outcomes).waits() == backoff_schedule(
            0,
            run_from(state, waits, outcomes).waits().len(),
        ),
        run_from(state, waits, outcomes).waits().len() <= state.max_retries,
        waits.len() <= run_from(state, waits, outcomes).waits().len(),
        run_from(state, waits, outcomes) matches Run::Pending { state: last, waits: waited }
            ==> last.within_budget() && last.max_retries == state.max_retries && waited.len()
            == last.attempts,
        run_from(state, waits, outcomes) matches Run::Done { result: Err(failure), waits: waited }
            ==> failure.retries() == waited.len(),
    decreases outcomes.len(),
{
    if outcomes.len() > 0 {
        match state.next_step(outcomes.first()) {
            StepView::Retry(next) => {
                let waited = waits.push(backoff_secs(next.attempts));
                assert(waited =~= backoff_schedule(0, next.attempts));
                lemma_run_keeps_schedule(next, waited, outcomes.drop_first());
            },
            _ => {},
        }
    }
}

/// The waits of a run of retries add up to one base delay less than the wait
/// that would come next.
pub proof fn lemma_schedule_sum(retries: nat)
    ensures
        sum(backoff_schedule(0, retries)) == total_backoff_secs(retries),
        sum(backoff_schedule(0, retries)) + 1 == pow2(retries),
    decreases retries,
{
    lemma_total_backoff(retries);
    if retries > 0 {
        lemma_schedule_sum((retries - 1) as nat);
        assert(backoff_schedule(0, retries).drop_last() =~= backoff_schedule(
            0,
            (retries - 1) as nat,
        ));
    }
}

/// A request that is always answered with a server error is attempted exactly
/// once more than the budget has retries, and the call then fails with the
/// last of those answers: status, response and all.
pub proof fn law_server_errors_use_up_budget<R, E>(
    max_retries: usize,
    outcomes: Seq<Outcome<R, E>>,
)
    requires
        outcomes.len() > max_retries,
        forall|i: int|
            0 <= i <= max_retries ==> (#[trigger] outcomes[i] matches Outcome::Response {
                status,
                ..
            } && is_server_error(status)),
    ensures
        run(max_retries as nat, outcomes).attempts() == max_retries + 1,
        run(max_retries as nat, outcomes) matches Run::Done { result: Err(failure), .. }
            && failure == (Failure::<R, E>::Status {
            retries: max_retries,
            status: outcomes[max_retries as int]->status,
            response: outcomes[max_retries as int]->response,
        }),
        run(max_retries as nat, outcomes).waits() == backoff_schedule(0, max_retries as nat),
{
    let start = RetryView { attempts: 0, max_retries: max_retries as nat };
    assert forall|i: int| 0 <= i <= max_retries implies (#[trigger] outcomes[i]).is_transient() by {
        assert(outcomes[i] is Response);
    }
    lemma_transient_failures_use_up_budget(start, Seq::empty(), outcomes);
    assert(Seq::<nat>::empty() + backoff_schedule(0, max_retries as nat) =~= backoff_schedule(
        0,
        max_retries as nat,
    ));
    assert(outcomes[max_retries as int] is Response);
}

/// A request that is answered with a client error is attempted exactly once,
/// whatever the budget, and the call fails with that answer. The same holds of
/// every status that is neither a success nor a server error.
pub proof fn law_client_error_is_not_retried<R, E>(
    max_retries: usize,
    outcomes: Seq<Outcome<R, E>>,
)
    requires
        outcomes.len() >= 1,
        outcomes[0] matches Outcome::Response { status, .. } && !is_success(status)
            && !is_server_error(status),
    ensures
        run(max_retries as nat, outcomes).attempts() == 1,
        run(max_retries as nat, outcomes).total_wait() == 0,
        run(max_retries as nat, outcomes) matches Run::Done { result: Err(failure), .. }
            && failure == (Failure::<R, E>::Status {
            retries: 0,
            status: outcomes[0]->status,
            response: outcomes[0]->response,
        }),
{
    lemma_first_attempt_decides(max_retries as nat, outcomes);
}

/// A request that is answered with a success is attempted exactly once, and
/// the call hands over the response as it came.
pub proof fn law_success_is_delivered_unchanged<R, E>(
    max_retries: usize,
    outcomes: Seq<Outcome<R, E>>,
)
    requires
        outcomes.len() >= 1,
        outcomes[0] matches Outcome::Response { status, .. } && is_success(status),
    ensures
        run(max_retries as nat, outcomes).attempts() == 1,
        run(max_retries as nat, outcomes).total_wait() == 0,
        run(max_retries as nat, outcomes) == (Run::<R, E>::Done {
            result: Ok(outcomes[0]->response),
            waits: Seq::empty(),
        }),
{
    lemma_first_attempt_decides(max_retries as nat, outcomes);
}

/// In every call the wait before attempt number `k`, for `k` from two on, is
/// the base delay doubled `k - 2` times: the wait before the first retry is
/// the base delay itself. No call makes more retries than its budget has.
pub proof fn law_backoff_schedule<R, E>(max_retries: usize, outcomes: Seq<Outcome<R, E>>, k: nat)
    requires
        2 <= k <= run(max_retries as nat, outcomes).waits().len() + 1,
    ensures
        run(max_retries as nat, outcomes).wait_before(k) == BASE_DELAY_SECS * pow2(
            (k - 2) as nat,
        ),
        run(max_retries as nat, outcomes).waits().len() <= max_retries,
        run(max_retries as nat, outcomes).total_wait() + 1 == pow2(
            run(max_retries as nat, outcomes).waits().len(),
        ),
{
    let start = RetryView { attempts: 0, max_retries: max_retries as nat };
    assert(Seq::<nat>::empty() =~= backoff_schedule(0, 0));
    lemma_run_keeps_schedule(start, Seq::empty(), outcomes);
    lemma_schedule_sum(run(max_retries as nat, outcomes).waits().len());
}

/// A transport error while connecting or by timeout is retried as a server
/// error is: a request that always fails so is attempted exactly once more
/// than the budget has retries, with the same waits, and the call then fails
/// with the last of those errors.
pub proof fn law_transient_transport_errors_use_up_budget<R, E>(
    max_retries: usize,
    outcomes: Seq<Outcome<R, E>>,
)
    requires
        outcomes.len() > max_retries,
        forall|i: int|
            0 <= i <= max_retries ==> (#[trigger] outcomes[i] matches Outcome::TransportError {
                connect,
                timeout,
                ..
            } && (connect || timeout)),
    ensures
        run(max_retries as nat, outcomes).attempts() == max_retries + 1,
        run(max_retries as nat, outcomes) matches Run::Done { result: Err(failure), .. }
            && failure == (Failure::<R, E>::Transport {
            retries: max_retries,
            connect: outcomes[max_retries as int]->connect,
            timeout: outcomes[max_retries as int]->timeout,
            error: outcomes[max_retries as int]->error,
        }),
        run(max_retries as nat, outcomes).waits() == backoff_schedule(0, max_retries as nat),
{
    let start = RetryView { attempts: 0, max_retries: max_retries as nat };
    assert forall|i: int| 0 <= i <= max_retries implies (#[trigger] outcomes[i]).is_transient() by {
        assert(outcomes[i] is TransportError);
    }
    lemma_transient_failures_use_up_budget(start, Seq::empty(), outcomes);
    assert(Seq::<nat>::empty() + backoff_schedule(0, max_retries as nat) =~= backoff_schedule(
        0,
        max_retries as nat,
    ));
    assert(outcomes[max_retries as int] is TransportError);
}

/// In every state the engine answers a transport error while connecting or by
/// timeout as it answers a server error: with a retry below the budget, with
/// the failure at the budget.
pub proof fn law_transient_transport_error_is_retried_like_server_error<R, E>(
    state: RetryView,
    transport: Outcome<R, E>,
    server: Outcome<R, E>,
)
    requires
        transport matches Outcome::TransportError { connect, timeout, .. } && (connect || timeout),
        server matches Outcome::Response { status, .. } && is_server_error(status),
    ensures
        state.verdict(transport) == state.verdict(server),
        state.verdict(transport) == if state.attempts < state.max_retries {
            Verdict::Retry
        } else {
            Verdict::Fail
        },
{
}

/// A transport error that is neither a failure to connect nor a timeout is
/// never retried: the call fails with it on the first attempt, whatever the
/// budget.
pub proof fn law_permanent_transport_error_is_not_retried<R, E>(
    max_retries: usize,
    outcomes: Seq<Outcome<R, E>>,
)
    requires
        outcomes.len() >= 1,
        outcomes[0] matches Outcome::TransportError { connect, timeout, .. } && !connect
            && !timeout,
    ensures
        run(max_retries as nat, outcomes).attempts() == 1,
        run(max_retries as nat, outcomes).total_wait() == 0,
        run(max_retries as nat, outcomes) matches Run::Done { result: Err(failure), .. }
            && failure == (Failure::<R, E>::Transport {
            retries: 0,
            connect: false,
            timeout: false,
            error: outcomes[0]->error,
        }),
{
    lemma_first_attempt_decides(max_retries as nat, outcomes);
}

/// A call depends on nothing but its budget and the outcomes of its attempts
/// up to the one that ends it: what the attempts would have produced after
/// that one does not change how the call went.
pub proof fn lemma_run_ignores_later_outcomes<R, E>(
    state: RetryView,
    waits: Seq<nat>,
    outcomes: Seq<Outcome<R, E>>,
    later: Seq<Outcome<R, E>>,
)
    requires
        run_from(state, waits, outcomes) is Done,
    ensures
        run_from(state, waits, outcomes + later) == run_from(state, waits, outcomes),
    decreases outcomes.len(),
{
    let all = outcomes + later;
    assert(outcomes.len() > 0);
    assert(all.first() == outcomes.first());
    match state.next_step(outcomes.first()) {
        StepView::Retry(next) => {
            assert(all.drop_first() =~= outcomes.drop_first() + later);
            lemma_run_ignores_later_outcomes(
                next,
                waits.push(backoff_secs(next.attempts)),
                outcomes.drop_first(),
                later,
            );
        },
        _ => {},
    }
}

/// Calls repeat: two calls under the same budget whose attempts produce the
/// same outcomes up to the end of the first call go the same way, and deliver
/// the same response where they succeed. The engine keeps nothing from one
/// call to the next.
pub proof fn law_identical_calls_go_the_same_way<R, E>(
    max_retries: usize,
    first: Seq<Outcome<R, E>>,
    second: Seq<Outcome<R, E>>,
    later: Seq<Outcome<R, E>>,
)
    requires
        run(max_retries as nat, first) is Done,
        second == first + later,
    ensures
        run(max_retries as nat, second) == run(max_retries as nat, first),
{
    lemma_run_ignores_later_outcomes(
        RetryView { attempts: 0, max_retries: max_retries as nat },
        Seq::empty(),
        first,
        later,
    );
}

} // verus!

//! The retry engine: what to do after each attempt of one call.
//!
//! The engine does not send anything. Its caller makes an attempt, reports what
//! came of it as an [`Outcome`], and carries out the [`Step`] that
//! [`RetryState::on_outcome`] answers with: hand the response over, give the
//! failure up, or wait and try again with the state that the step holds.

use crate::status::{classify, is_server_error, is_success, StatusClass};
use vstd::prelude::*;

verus! {

/// What one attempt produced. `R` is the caller's response, `E` its transport
/// error; the engine reads neither and hands both back as they came.
#[derive(Debug, PartialEq, Eq)]
pub enum Outcome<R, E> {
    /// The server answered with the status code `status`.
    Response { status: u16, response: R },
    /// No answer came. `connect` says that the connection could not be made,
    /// `timeout` that the attempt ran out of time.
    TransportError { connect: bool, timeout: bool, error: E },
}

/// Why a call ended without a successful response: the last thing observed,
/// as it was, and the number of retries that went before it.
#[derive(Debug, PartialEq, Eq)]
pub enum Failure<R, E> {
    /// The last answer had a status code outside the success range.
    Status { retries: usize, status: u16, response: R },
    /// The last attempt failed below HTTP.
    Transport { retries: usize, connect: bool, timeout: bool, error: E },
}

/// The counter of one call: the retries made so far, and the most it may make.
#[derive(Debug, PartialEq, Eq)]
pub struct RetryState {
    attempts: usize,
    max_retries: usize,
}

/// What the caller of the engine has to do next.
#[derive(Debug, PartialEq, Eq)]
pub enum Step<R, E> {
    /// The call succeeded: hand this response to the caller.
    Deliver(R),
    /// The call failed for good.
    Fail(Failure<R, E>),
    /// Wait for the backoff delay of the new state, then make another attempt
    /// and report its outcome to the new state.
    Retry(RetryState),
}

/// The counter of one call as numbers.
pub struct RetryView {
    pub attempts: nat,
    pub max_retries: nat,
}

/// A step with the counter as numbers.
pub enum StepView<R, E> {
    Deliver(R),
    Fail(Failure<R, E>),
    Retry(RetryView),
}

/// The three things that can be decided after an attempt.
#[derive(Clone, Copy, Debug, PartialEq, Eq, Structural)]
pub enum Verdict {
    Deliver,
    Retry,
    Fail,
}

impl<R, E> Outcome<R, E> {
    /// A response in the success range.
    pub open spec fn is_success(self) -> bool {
        self matches Outcome::Response { status, .. } && is_success(status)
    }

    /// A failure of the kind that another attempt may cure: a server error, or a
    /// transport error while connecting or by timeout.
    pub open spec fn is_transient(self) -> bool {
        match self {
            Outcome::Response { status, .. } => is_server_error(status),
            Outcome::TransportError { connect, timeout, .. } => connect || timeout,
        }
    }

    /// The failure that this outcome becomes when the call ends on it after
    /// `retries` retries.
    pub open spec fn as_failure(self, retries: nat) -> Failure<R, E> {
        match self {
            Outcome::Response { status, response } => Failure::Status {
                retries: retries as usize,
                status,
                response,
            },
            Outcome::TransportError { connect, timeout, error } => Failure::Transport {
                retries: retries as usize,
                connect,
                timeout,
                error,
            },
        }
    }
}

impl<R, E> Failure<R, E> {
    /// The retries that went before the failing attempt.
    pub open spec fn retries(self) -> nat {
        match self {
            Failure::Status { retries, .. } => retries as nat,
            Failure::Transport { retries, .. } => retries as nat,
        }
    }

    /// The number of the failing attempt, counted from one.
    pub open spec fn attempt(self) -> nat {
        self.retries() + 1
    }

    /// The retries that went before the failing attempt.
    pub fn retries_made(&self) -> (retries: usize)
        ensures
            retries == self.retries(),
    {
        match self {
            Failure::Status { retries, .. } => *retries,
            Failure::Transport { retries, .. } => *retries,
        }
    }
}

impl RetryView {
    /// The counter has not passed the budget.
    pub open spec fn within_budget(self) -> bool {
        self.attempts <= self.max_retries
    }

    /// The counter after one more retry.
    pub open spec fn retried(self) -> RetryView {
        RetryView { attempts: self.attempts + 1, max_retries: self.max_retries }
    }

    /// What the engine decides on `outcome` in this state.
    pub open spec fn verdict<R, E>(self, outcome: Outcome<R, E>) -> Verdict {
        if outcome.is_success() {
            Verdict::Deliver
        } else if outcome.is_transient() && self.attempts < self.max_retries {
            Verdict::Retry
        } else {
            Verdict::Fail
        }
    }

    /// The step that the engine answers `outcome` with in this state.
    pub open spec fn next_step<R, E>(self, outcome: Outcome<R, E>) -> StepView<R, E> {
        match self.verdict(outcome) {
            Verdict::Deliver => StepView::Deliver(outcome->response),
            Verdict::Retry => StepView::Retry(self.retried()),
            Verdict::Fail => StepView::Fail(outcome.as_failure(self.attempts)),
        }
    }
}

impl View for RetryState {
    type V = RetryView;

    closed spec fn view(&self) -> RetryView {
        RetryView { attempts: self.attempts as nat, max_retries: self.max_retries as nat }
    }
}

impl<R, E> View for Step<R, E> {
    type V = StepView<R, E>;

    open spec fn view(&self) -> StepView<R, E> {
        match *self {
            Step::Deliver(response) => StepView::Deliver(response),
            Step::Fail(failure) => StepView::Fail(failure),
            Step::Retry(state) => StepView::Retry(state@),
        }
    }
}

impl RetryState {
    #[verifier::type_invariant]
    spec fn counted_within_budget(self) -> bool {
        self.attempts <= self.max_retries
    }

    /// The state in which a call starts: no retry made yet.
    pub fn new(max_retries: usize) -> (state: RetryState)
        ensures
            state@ == (RetryView { attempts: 0, max_retries: max_retries as nat }),
    {
        RetryState { attempts: 0, max_retries }
    }

    /// The retries made so far.
    pub fn attempts(&self) -> (attempts: usize)
        ensures
            attempts == self@.attempts,
            self@.within_budget(),
    {
        proof {
            use_type_invariant(self);
        }
        self.attempts
    }

    /// The most retries that the call may make.
    pub fn max_retries(&self) -> (max_retries: usize)
        ensures
            max_retries == self@.max_retries,
            self@.within_budget(),
    {
        proof {
            use_type_invariant(self);
        }
        self.max_retries
    }

    /// Decides what follows an attempt.
    ///
    /// A response in the success range is delivered as it came. A server error,
    /// or a transport error while connecting or by timeout, is answered with a
    /// retry as long as the counter is below the budget; the new state counts one
    /// retry more. Everything else ends the call with the outcome as its failure:
    /// a server error or transient transport error with the budget used up, a
    /// client error, any other status, any other transport error.
    pub fn on_outcome<R, E>(self, outcome: Outcome<R, E>) -> (step: Step<R, E>)
        ensures
            step@ == self@.next_step(outcome),
            step matches Step::Retry(next) ==> next@.within_budget(),
    {
        proof {
            use_type_invariant(&self);
        }
        match outcome {
            Outcome::Response { status, response } => {
                let class = classify(status);
                match class {
                    StatusClass::Success => Step::Deliver(response),
                    StatusClass::ServerError => {
                        if self.attempts < self.max_retries {
                            Step::Retry(
                                RetryState {
                                    attempts: self.attempts + 1,
                                    max_retries: self.max_retries,
                                },
                            )
                        } else {
                            Step::Fail(
                                Failure::Status { retries: self.attempts, status, response },
                            )
                        }
                    },
                    _ => Step::Fail(Failure::Status { retries: self.attempts, status, response }),
                }
            },
            Outcome::TransportError { connect, timeout, error } => {
                if self.attempts >= self.max_retries || !(connect || timeout) {
                    Step::Fail(
                        Failure::Transport { retries: self.attempts, connect, timeout, error },
                    )
                } else {
                    Step::Retry(
                        RetryState { attempts: self.attempts + 1, max_retries: self.max_retries },
                    )
                }
            },
        }
    }
}

} // verus!

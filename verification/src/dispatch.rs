//! The retry-dispatch state machine for one logical request.
//!
//! Dispatching alternates outside work (selecting from the pool, waiting
//! for a rate-limit token, performing the attempt) with decisions. The
//! decisions live here as an explicit machine: the caller performs each
//! returned action and feeds the resulting event back in, until a terminal
//! action is returned.
//!
//! Per-proxy faults are always attributed to the chosen proxy — every
//! failed attempt yields a record-failure action — while pool exhaustion
//! and a non-replayable body reject the request without touching any proxy.

use vstd::prelude::*;

use crate::error::AttemptFailure;
use crate::error::DispatchError;

verus! {

/// What the caller observed since the last decision.
#[derive(Debug, Clone, PartialEq, Eq)]
pub enum DispatchEvent {
    /// The pool returned this healthy proxy's URL.
    ProxySelected(String),
    /// The pool had no healthy proxy.
    NoHealthyProxy,
    /// The attempt through the chosen proxy succeeded.
    AttemptSucceeded,
    /// The attempt through the chosen proxy failed, and why.
    AttemptFailed(AttemptFailure),
}

/// What the caller must do next.
#[derive(Debug, Clone, PartialEq, Eq)]
pub enum DispatchAction {
    /// Terminal: fail the request with this error; no proxy is touched.
    Reject(DispatchError),
    /// Ask the pool for a proxy.
    SelectProxy,
    /// Wait for this proxy's rate-limit token, then attempt the request
    /// through it.
    Attempt(String),
    /// Terminal: record a success on this proxy and return the response.
    RecordSuccessAndFinish(String),
    /// Record a failure on this proxy, then ask the pool again.
    RecordFailureAndSelect(String),
    /// Terminal: record a failure on this proxy and fail the request with
    /// this error.
    RecordFailureAndFail(String, DispatchError),
}

/// Where the machine stands.
#[derive(Debug, Clone, PartialEq, Eq)]
pub enum DispatchPhase {
    /// Waiting for the pool's answer to a selection.
    Selecting,
    /// Waiting for the outcome of an attempt through this proxy.
    Attempting(String),
    /// A terminal action has been returned.
    Finished,
}

/// The machine for one logical request: the retry bound, how many attempts
/// have failed so far, and the current phase.
#[derive(Debug, Clone, PartialEq, Eq)]
pub struct Dispatcher {
    /// How many times a failed request may be retried against another
    /// proxy.
    pub max_retries: usize,
    /// Failed attempts so far.
    pub attempts: usize,
    /// Current phase.
    pub phase: DispatchPhase,
}

/// The terminal error attributed to a failed final attempt.
pub open spec fn spec_error_of(k: AttemptFailure) -> DispatchError {
    match k {
        AttemptFailure::Construction => DispatchError::ProxyConstruction,
        AttemptFailure::Execution => DispatchError::RequestExecution,
    }
}

/// The action records a failure on some proxy.
pub open spec fn spec_records_failure(a: DispatchAction) -> bool {
    a is RecordFailureAndSelect || a is RecordFailureAndFail
}

/// What `Dispatcher::begin` returns: a non-replayable body is rejected
/// before any proxy is touched; otherwise the machine starts selecting.
pub open spec fn spec_begin(replayable: bool, max_retries: usize) -> (Dispatcher, DispatchAction) {
    if replayable {
        (
            Dispatcher { max_retries, attempts: 0, phase: DispatchPhase::Selecting },
            DispatchAction::SelectProxy,
        )
    } else {
        (
            Dispatcher { max_retries, attempts: 0, phase: DispatchPhase::Finished },
            DispatchAction::Reject(DispatchError::NonReplayableRequest),
        )
    }
}

impl Dispatcher {
    /// The failure count never exceeds the retry bound.
    pub open spec fn wf(self) -> bool {
        self.attempts <= self.max_retries
    }

    /// The machine can take this event in its current phase.
    pub open spec fn spec_accepts(self, e: DispatchEvent) -> bool {
        match (self.phase, e) {
            (DispatchPhase::Selecting, DispatchEvent::ProxySelected(_)) => true,
            (DispatchPhase::Selecting, DispatchEvent::NoHealthyProxy) => true,
            (DispatchPhase::Attempting(_), DispatchEvent::AttemptSucceeded) => true,
            (DispatchPhase::Attempting(_), DispatchEvent::AttemptFailed(_)) => true,
            _ => false,
        }
    }

    /// One decision. An empty selection rejects the request as pool
    /// exhaustion; a selected proxy is attempted; a success is recorded and
    /// finishes; a failure is recorded on the attempted proxy and either
    /// selects again or, once the failure count would exceed the retry
    /// bound, fails with the error of this final attempt.
    ///
    /// The catch-all arm is never reached when `spec_accepts` holds.
    pub open spec fn spec_step(self, e: DispatchEvent) -> (Dispatcher, DispatchAction)
        recommends
            self.spec_accepts(e),
    {
        match (self.phase, e) {
            (DispatchPhase::Selecting, DispatchEvent::NoHealthyProxy) => (
                Dispatcher { phase: DispatchPhase::Finished, ..self },
                DispatchAction::Reject(DispatchError::NoProxyAvailable),
            ),
            (DispatchPhase::Selecting, DispatchEvent::ProxySelected(u)) => (
                Dispatcher { phase: DispatchPhase::Attempting(u), ..self },
                DispatchAction::Attempt(u),
            ),
            (DispatchPhase::Attempting(u), DispatchEvent::AttemptSucceeded) => (
                Dispatcher { phase: DispatchPhase::Finished, ..self },
                DispatchAction::RecordSuccessAndFinish(u),
            ),
            (DispatchPhase::Attempting(u), DispatchEvent::AttemptFailed(k)) => if self.attempts
                >= self.max_retries {
                (
                    Dispatcher { phase: DispatchPhase::Finished, ..self },
                    DispatchAction::RecordFailureAndFail(u, spec_error_of(k)),
                )
            } else {
                (
                    Dispatcher {
                        attempts: (self.attempts + 1) as usize,
                        phase: DispatchPhase::Selecting,
                        ..self
                    },
                    DispatchAction::RecordFailureAndSelect(u),
                )
            },
            (_, _) => (self, DispatchAction::SelectProxy),
        }
    }

    /// Start dispatching one logical request. A non-replayable body is
    /// rejected at once, before any proxy is touched; otherwise the first
    /// action is a selection.
    pub fn begin(replayable: bool, max_retries: usize) -> (r: (Dispatcher, DispatchAction))
        ensures
            r == spec_begin(replayable, max_retries),
            r.0.wf(),
    {
        if replayable {
            (
                Dispatcher { max_retries, attempts: 0, phase: DispatchPhase::Selecting },
                DispatchAction::SelectProxy,
            )
        } else {
            (
                Dispatcher { max_retries, attempts: 0, phase: DispatchPhase::Finished },
                DispatchAction::Reject(DispatchError::NonReplayableRequest),
            )
        }
    }

    /// Feed one observed event in and get the machine's next action.
    pub fn step(self, e: DispatchEvent) -> (r: (Dispatcher, DispatchAction))
        requires
            self.wf(),
            self.spec_accepts(e),
        ensures
            r == self.spec_step(e),
            r.0.wf(),
    {
        match (self.phase, e) {
            (DispatchPhase::Selecting, DispatchEvent::NoHealthyProxy) => (
                Dispatcher {
                    max_retries: self.max_retries,
                    attempts: self.attempts,
                    phase: DispatchPhase::Finished,
                },
                DispatchAction::Reject(DispatchError::NoProxyAvailable),
            ),
            (DispatchPhase::Selecting, DispatchEvent::ProxySelected(u)) => {
                let phase_url = u.clone();
                (
                    Dispatcher {
                        max_retries: self.max_retries,
                        attempts: self.attempts,
                        phase: DispatchPhase::Attempting(phase_url),
                    },
                    DispatchAction::Attempt(u),
                )
            },
            (DispatchPhase::Attempting(u), DispatchEvent::AttemptSucceeded) => (
                Dispatcher {
                    max_retries: self.max_retries,
                    attempts: self.attempts,
                    phase: DispatchPhase::Finished,
                },
                DispatchAction::RecordSuccessAndFinish(u),
            ),
            (DispatchPhase::Attempting(u), DispatchEvent::AttemptFailed(k)) => {
                if self.attempts >= self.max_retries {
                    let err = match k {
                        AttemptFailure::Construction => DispatchError::ProxyConstruction,
                        AttemptFailure::Execution => DispatchError::RequestExecution,
                    };
                    (
                        Dispatcher {
                            max_retries: self.max_retries,
                            attempts: self.attempts,
                            phase: DispatchPhase::Finished,
                        },
                        DispatchAction::RecordFailureAndFail(u, err),
                    )
                } else {
                    (
                        Dispatcher {
                            max_retries: self.max_retries,
                            attempts: self.attempts + 1,
                            phase: DispatchPhase::Selecting,
                        },
                        DispatchAction::RecordFailureAndSelect(u),
                    )
                }
            },
            (phase, _) => (
                Dispatcher { max_retries: self.max_retries, attempts: self.attempts, phase },
                DispatchAction::SelectProxy,
            ),
        }
    }
}

/// The actions a run of the machine emits from state `s` on this event
/// sequence, stopping at the first event the machine cannot take.
pub open spec fn spec_run_actions(s: Dispatcher, events: Seq<DispatchEvent>) -> Seq<DispatchAction>
    decreases events.len(),
{
    if events.len() == 0 || !s.spec_accepts(events[0]) {
        Seq::<DispatchAction>::empty()
    } else {
        let (s1, a) = s.spec_step(events[0]);
        seq![a] + spec_run_actions(s1, events.drop_first())
    }
}

/// A dispatch begun with a non-replayable request rejects it at once and,
/// whatever events are fed in afterwards, never emits an action that
/// records a failure on any proxy.
pub proof fn lemma_non_replayable_records_no_failure(
    max_retries: usize,
    events: Seq<DispatchEvent>,
)
    ensures
        !spec_records_failure(spec_begin(false, max_retries).1),
        spec_begin(false, max_retries).1 == DispatchAction::Reject(
            DispatchError::NonReplayableRequest,
        ),
        spec_run_actions(spec_begin(false, max_retries).0, events) == Seq::<
            DispatchAction,
        >::empty(),
{
    let s0 = spec_begin(false, max_retries).0;
    assert(s0.phase is Finished);
    if events.len() > 0 {
        assert(!s0.spec_accepts(events[0]));
    }
}

} // verus!

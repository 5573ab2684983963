use vstd::prelude::*;
use crate::backoff::{Backoff, Sleeper, WaitStrategy};
use crate::error::Error;
use crate::operation::{plan_fails_below, plan_first_success_at, Operation};

verus! {

/// The circuit's position: `Closed` attempts the operation normally,
/// `HalfOpen` sends a single recovery probe, `Open` fails fast without
/// touching the operation. Nothing in this crate ever sets `Open`; that
/// transition belongs to an external supervisor, which may assign the
/// field directly.
#[derive(Debug, Clone, Copy, PartialEq, Eq, Structural)]
pub enum State {
    Closed,
    Open,
    HalfOpen,
}

/// Where within one retry cycle a breaker stands. `Idle` between calls;
/// the other phases only occur while a retry cycle is being driven.
#[derive(Debug, Clone, Copy, PartialEq, Eq, Structural)]
pub enum RetryPhase {
    /// No retry cycle is running.
    Idle,
    /// At the top of the cycle: the next obligation is chosen from the
    /// counters and the state.
    Deciding,
    /// The operation has been handed out for one invocation and its
    /// outcome has not been reported back yet.
    AwaitingOutcome { probe: bool },
    /// A failed invocation is being paced by the backoff interval that was
    /// current when it failed.
    Pacing { nanos: u64, probe: bool },
    /// The fixed reset timeout that follows a failed probe.
    ProbeCooldown,
}

/// The next obligation of a retry cycle, handed to whoever drives it:
/// invoke the operation once, spend a wait, or give up with the last
/// recorded error.
#[derive(Debug, Clone, Copy, PartialEq, Eq, Structural)]
pub enum RetryStep {
    Invoke,
    Wait { nanos: u64 },
    GiveUp,
}

/// Collects the configuration of a `CircuitBreaker`; the reset timeout and
/// the backoff are mandatory, the two ceilings have defaults.
#[derive(Debug, Clone, Copy)]
pub struct CircuitBreakerBuilder {
    pub attempts: Option<usize>,
    pub failure_threshold: Option<usize>,
    pub reset_timeout: Option<u64>,
    pub backoff: Option<Backoff>,
}

impl CircuitBreakerBuilder {
    pub fn new() -> (r: Self)
        ensures
            r.attempts is None,
            r.failure_threshold is None,
            r.reset_timeout is None,
            r.backoff is None,
    {
        Self {
            attempts: Option::None,
            failure_threshold: Option::None,
            reset_timeout: Option::None,
            backoff: Option::None,
        }
    }

    /// Sets how many failed half-open probes are tolerated before the
    /// breaker gives up entirely.
    pub fn with_attempts(self, attempts: usize) -> (r: Self)
        requires
            attempts > 0,
        ensures
            r == (Self { attempts: Option::Some(attempts), ..self }),
    {
        Self { attempts: Option::Some(attempts), ..self }
    }

    /// Sets how many closed-state failures are tolerated before the
    /// breaker transitions to half-open.
    pub fn with_failure_threshold(self, threshold: usize) -> (r: Self)
        requires
            threshold > 1,
        ensures
            r == (Self { failure_threshold: Option::Some(threshold), ..self }),
    {
        Self { failure_threshold: Option::Some(threshold), ..self }
    }

    /// Sets the fixed wait, in nanoseconds, spent around every half-open
    /// transition.
    pub fn with_reset_timeout(self, duration: u64) -> (r: Self)
        ensures
            r == (Self { reset_timeout: Option::Some(duration), ..self }),
    {
        Self { reset_timeout: Option::Some(duration), ..self }
    }

    /// Hands the breaker the backoff that paces its attempts.
    pub fn with_backoff(self, backoff: Backoff) -> (r: Self)
        requires
            backoff.time_strategy.wf(),
        ensures
            r == (Self { backoff: Option::Some(backoff), ..self }),
    {
        Self { backoff: Option::Some(backoff), ..self }
    }

    /// Produces the configured `CircuitBreaker`, closed and with cleared
    /// counters, or a configuration error naming the first missing
    /// mandatory field. `attempts` defaults to 1, `failure_threshold` to 2.
    pub fn build(&self) -> (r: Result<CircuitBreaker, Error>)
        requires
            self.attempts matches Option::Some(a) ==> a >= 1,
            self.failure_threshold matches Option::Some(t) ==> t >= 2,
            self.backoff matches Option::Some(b) ==> b.time_strategy.wf(),
        ensures
            r is Ok <==> (self.reset_timeout is Some && self.backoff is Some),
            r matches Ok(cb) ==> {
                &&& cb.failed_attempts == 0
                &&& cb.failure_count == 0
                &&& (match self.attempts {
                    Option::Some(a) => cb.attempts == a,
                    Option::None => cb.attempts == 1,
                })
                &&& (match self.failure_threshold {
                    Option::Some(t) => cb.failure_threshold == t,
                    Option::None => cb.failure_threshold == 2,
                })
                &&& (self.reset_timeout matches Option::Some(t) && cb.reset_timeout == t)
                &&& (self.backoff matches Option::Some(b) && cb.backoff == b)
                &&& cb.state == State::Closed
                &&& cb.phase == RetryPhase::Idle
                &&& cb.wf()
            },
            r matches Err(e) ==> e.description@ == (if self.reset_timeout is None {
                "Reset timeout is required"@
            } else {
                "Backoff is required"@
            }),
    {
        match self.reset_timeout {
            Option::None => Err(Error::new("Reset timeout is required")),
            Option::Some(reset_timeout) => match self.backoff {
                Option::None => Err(Error::new("Backoff is required")),
                Option::Some(backoff) => {
                    let attempts: usize = match self.attempts {
                        Option::Some(a) => a,
                        Option::None => 1,
                    };
                    let failure_threshold: usize = match self.failure_threshold {
                        Option::Some(t) => t,
                        Option::None => 2,
                    };
                    Ok(CircuitBreaker {
                        failed_attempts: 0,
                        attempts,
                        failure_count: 0,
                        failure_threshold,
                        reset_timeout,
                        backoff,
                        state: State::Closed,
                        phase: RetryPhase::Idle,
                    })
                }
            },
        }
    }
}

/// Wraps a `Backoff` in the open/closed/half-open state machine: failures
/// are counted against `failure_threshold` while closed, then single
/// probes are paced against `attempts` while half-open.
#[derive(Debug, Clone, Copy)]
pub struct CircuitBreaker {
    pub failed_attempts: usize,
    pub attempts: usize,
    pub failure_count: usize,
    pub failure_threshold: usize,
    pub reset_timeout: u64,
    pub backoff: Backoff,
    pub state: State,
    pub phase: RetryPhase,
}

impl CircuitBreaker {
    /// The construction-time invariants: both ceilings hold their minima
    /// and the counters stay below them.
    pub open spec fn wf(self) -> bool {
        &&& self.attempts >= 1
        &&& self.failure_threshold >= 2
        &&& self.failed_attempts <= self.attempts
        &&& self.failure_count <= self.failure_threshold
        &&& self.backoff.time_strategy.wf()
    }

    /// Clears the closed-state failure count, restores the backoff pacing
    /// and forces the circuit closed. `failed_attempts` is deliberately
    /// left alone: probe failures persist across retry calls.
    pub fn reset(&mut self)
        ensures
            *final(self) == (CircuitBreaker {
                state: State::Closed,
                failure_count: 0,
                backoff: (Backoff {
                    time_strategy: old(self).backoff.time_strategy.restarted(),
                    ..old(self).backoff
                }),
                ..*old(self)
            }),
    {
        self.state = State::Closed;
        self.failure_count = 0;
        self.backoff.reset();
    }

    /// The machine after one `retry_step` call, paired with the obligation
    /// that the call hands out.
    pub open spec fn step_target(self) -> (CircuitBreaker, RetryStep) {
        match self.phase {
            RetryPhase::Deciding => {
                if self.state == State::Closed && self.failure_count >= self.failure_threshold {
                    (
                        (CircuitBreaker { state: State::HalfOpen, ..self }),
                        RetryStep::Wait { nanos: self.reset_timeout },
                    )
                } else if self.failed_attempts >= self.attempts {
                    ((CircuitBreaker { phase: RetryPhase::Idle, ..self }), RetryStep::GiveUp)
                } else if self.state == State::HalfOpen {
                    (
                        (CircuitBreaker {
                            phase: RetryPhase::AwaitingOutcome { probe: true },
                            ..self
                        }),
                        RetryStep::Invoke,
                    )
                } else {
                    (
                        (CircuitBreaker {
                            phase: RetryPhase::AwaitingOutcome { probe: false },
                            ..self
                        }),
                        RetryStep::Invoke,
                    )
                }
            }
            RetryPhase::Pacing { nanos, probe } => {
                if probe {
                    (
                        (CircuitBreaker { phase: RetryPhase::ProbeCooldown, ..self }),
                        RetryStep::Wait { nanos },
                    )
                } else {
                    (
                        (CircuitBreaker { phase: RetryPhase::Deciding, ..self }),
                        RetryStep::Wait { nanos },
                    )
                }
            }
            RetryPhase::ProbeCooldown => (
                (CircuitBreaker { phase: RetryPhase::Deciding, ..self }),
                RetryStep::Wait { nanos: self.reset_timeout },
            ),
            _ => (self, RetryStep::GiveUp),
        }
    }

    /// The machine after the outcome of an `Invoke` obligation has been
    /// reported back. Success closes the circuit and ends the cycle; a
    /// failure bumps the counter it was charged against, remembers the
    /// backoff interval to pace, and advances the backoff.
    pub open spec fn report_target(self, succeeded: bool) -> CircuitBreaker {
        match self.phase {
            RetryPhase::AwaitingOutcome { probe } => {
                if succeeded {
                    CircuitBreaker { state: State::Closed, phase: RetryPhase::Idle, ..self }
                } else if probe {
                    CircuitBreaker {
                        state: State::Closed,
                        failed_attempts: (self.failed_attempts + 1) as usize,
                        phase: RetryPhase::Pacing {
                            nanos: self.backoff.time_strategy.current(),
                            probe: true,
                        },
                        backoff: Backoff {
                            time_strategy: self.backoff.time_strategy.advanced(),
                            ..self.backoff
                        },
                        ..self
                    }
                } else {
                    CircuitBreaker {
                        failure_count: (self.failure_count + 1) as usize,
                        phase: RetryPhase::Pacing {
                            nanos: self.backoff.time_strategy.current(),
                            probe: false,
                        },
                        backoff: Backoff {
                            time_strategy: self.backoff.time_strategy.advanced(),
                            ..self.backoff
                        },
                        ..self
                    }
                }
            }
            _ => self,
        }
    }

    /// Opens a retry cycle. A breaker standing `Open` refuses at once and
    /// is untouched; otherwise the closed-state counter and the backoff
    /// pacing are cleared, the circuit is forced closed, and the cycle
    /// starts deciding.
    pub fn retry_begin(&mut self) -> (started: bool)
        requires
            old(self).wf(),
            old(self).phase == RetryPhase::Idle,
            old(self).state == State::Open || old(self).failed_attempts < old(self).attempts,
        ensures
            final(self).wf(),
            started == (old(self).state != State::Open),
            !started ==> *final(self) == *old(self),
            started ==> *final(self) == (CircuitBreaker {
                state: State::Closed,
                failure_count: 0,
                phase: RetryPhase::Deciding,
                backoff: (Backoff {
                    time_strategy: old(self).backoff.time_strategy.restarted(),
                    ..old(self).backoff
                }),
                ..*old(self)
            }),
    {
        if self.state == State::Open {
            false
        } else {
            self.reset();
            self.phase = RetryPhase::Deciding;
            true
        }
    }

    /// Hands out the next obligation of the running retry cycle and moves
    /// the machine past it, exactly as `step_target` describes.
    pub fn retry_step(&mut self) -> (step: RetryStep)
        requires
            old(self).wf(),
            old(self).phase != RetryPhase::Idle,
            !(old(self).phase matches RetryPhase::AwaitingOutcome { .. }),
            old(self).phase == RetryPhase::Deciding ==> old(self).state != State::Open,
        ensures
            final(self).wf(),
            *final(self) == old(self).step_target().0,
            step == old(self).step_target().1,
    {
        match self.phase {
            RetryPhase::Deciding => {
                if self.state == State::Closed && self.failure_count >= self.failure_threshold {
                    self.state = State::HalfOpen;
                    RetryStep::Wait { nanos: self.reset_timeout }
                } else if self.failed_attempts >= self.attempts {
                    self.phase = RetryPhase::Idle;
                    RetryStep::GiveUp
                } else if self.state == State::HalfOpen {
                    self.phase = RetryPhase::AwaitingOutcome { probe: true };
                    RetryStep::Invoke
                } else {
                    self.phase = RetryPhase::AwaitingOutcome { probe: false };
                    RetryStep::Invoke
                }
            }
            RetryPhase::Pacing { nanos, probe } => {
                if probe {
                    self.phase = RetryPhase::ProbeCooldown;
                } else {
                    self.phase = RetryPhase::Deciding;
                }
                RetryStep::Wait { nanos }
            }
            RetryPhase::ProbeCooldown => {
                self.phase = RetryPhase::Deciding;
                RetryStep::Wait { nanos: self.reset_timeout }
            }
            _ => RetryStep::GiveUp,
        }
    }

    /// How many consecutive operation failures one retry cycle of this
    /// breaker tolerates before it gives up: the whole closed-state
    /// allowance plus the probes that are still left.
    pub open spec fn failure_budget(self) -> int {
        self.failure_threshold + self.attempts - self.failed_attempts
    }

    /// Orders the obligations between two invocations, for termination of
    /// the driving loop.
    spec fn session_rank(self) -> int {
        match self.phase {
            RetryPhase::Pacing { .. } => 4,
            RetryPhase::ProbeCooldown => 3,
            RetryPhase::Deciding => if self.state == State::Closed && self.failure_count
                >= self.failure_threshold {
                2
            } else {
                1
            },
            _ => 0,
        }
    }

    /// Reports the outcome of the invocation that the last `Invoke`
    /// obligation asked for, exactly as `report_target` describes.
    pub fn retry_report(&mut self, succeeded: bool)
        requires
            old(self).wf(),
            old(self).phase matches RetryPhase::AwaitingOutcome { probe }
                && (probe ==> old(self).failed_attempts < old(self).attempts)
                && (!probe ==> old(self).failure_count < old(self).failure_threshold),
        ensures
            final(self).wf(),
            *final(self) == old(self).report_target(succeeded),
    {
        match self.phase {
            RetryPhase::AwaitingOutcome { probe } => {
                if succeeded {
                    self.state = State::Closed;
                    self.phase = RetryPhase::Idle;
                } else {
                    let nanos: u64 = *Backoff::get_next(&self.backoff.time_strategy);
                    Backoff::compute_next(&mut self.backoff.time_strategy);
                    if probe {
                        self.state = State::Closed;
                        self.failed_attempts = self.failed_attempts + 1;
                        self.phase = RetryPhase::Pacing { nanos, probe: true };
                    } else {
                        self.failure_count = self.failure_count + 1;
                        self.phase = RetryPhase::Pacing { nanos, probe: false };
                    }
                }
            }
            _ => {}
        }
    }

    /// Runs one full retry cycle against the operation, blocking. An open
    /// circuit is refused at once. Otherwise the counters are cleared and
    /// attempts run, paced by the backoff, until the first success or
    /// until the failure budget — `failure_threshold` closed attempts,
    /// then one probe per remaining `attempts` — is spent; the last
    /// failure is then handed back, the circuit left half-open. A breaker
    /// that is not open and whose probe allowance is already spent has no
    /// error to surface, so such a call is ruled out up front.
    pub fn retry<O, E: From<Error>, Op: Operation<O, E>, S: Sleeper>(
        &mut self,
        operation: &mut Op,
        sleeper: &mut S,
    ) -> (r: Result<O, E>)
        requires
            old(self).wf(),
            old(self).phase == RetryPhase::Idle,
            old(self).backoff.wait_strategy != WaitStrategy::Asynchronous,
            old(self).state == State::Open || old(self).failed_attempts < old(self).attempts,
        ensures
            final(self).wf(),
            final(self).phase == RetryPhase::Idle,
            final(self).attempts == old(self).attempts,
            final(self).failure_threshold == old(self).failure_threshold,
            final(self).reset_timeout == old(self).reset_timeout,
            final(self).backoff.wait_strategy == old(self).backoff.wait_strategy,
            old(self).state == State::Open ==> r is Err && *final(self) == *old(self)
                && *final(operation) == *old(operation),
            old(self).state != State::Open ==> {
                let budget = old(self).failure_budget();
                &&& (r is Ok <==> !plan_fails_below(*old(operation), budget as nat))
                &&& (forall|j: nat| j < budget && #[trigger] plan_first_success_at(
                    *old(operation),
                    j,
                ) ==> {
                    &&& final(self).state == State::Closed
                    &&& final(self).failure_count as nat == (if j < old(self).failure_threshold {
                        j
                    } else {
                        old(self).failure_threshold as nat
                    })
                    &&& final(self).failed_attempts as int == old(self).failed_attempts + (if j
                        < old(self).failure_threshold {
                        0int
                    } else {
                        j - old(self).failure_threshold
                    })
                    &&& final(self).backoff.time_strategy == old(
                        self,
                    ).backoff.time_strategy.restarted().advanced_n(j)
                    &&& (forall|i: nat| #[trigger] final(operation).succeeds_after(i) == old(
                        operation,
                    ).succeeds_after(i + j + 1))
                })
                &&& (plan_fails_below(*old(operation), budget as nat) ==> {
                    &&& r is Err
                    &&& final(self).state == State::HalfOpen
                    &&& final(self).failed_attempts == old(self).attempts
                    &&& final(self).failure_count == old(self).failure_threshold
                    &&& final(self).backoff.time_strategy == old(
                        self,
                    ).backoff.time_strategy.restarted().advanced_n(budget as nat)
                    &&& (forall|i: nat| #[trigger] final(operation).succeeds_after(i) == old(
                        operation,
                    ).succeeds_after((i + budget) as nat))
                })
            },
    {
        if self.state == State::Open {
            return Err(E::from(Error::new("Circuit breaker is open")));
        }
        let ghost initial_self: CircuitBreaker = *self;
        let ghost initial_plan: Op = *operation;
        let ghost budget: int = initial_self.failure_budget();
        let _started = self.retry_begin();
        let mut last_error: Option<E> = Option::None;
        let ghost mut failures: nat = 0;
        loop
            invariant
                initial_self == *old(self),
                initial_plan == *old(operation),
                initial_self.state != State::Open,
                initial_self.wf(),
                self.wf(),
                self.attempts == initial_self.attempts,
                self.failure_threshold == initial_self.failure_threshold,
                self.reset_timeout == initial_self.reset_timeout,
                self.backoff.wait_strategy == initial_self.backoff.wait_strategy,
                self.backoff.wait_strategy != WaitStrategy::Asynchronous,
                budget == initial_self.failure_budget(),
                initial_self.failed_attempts < initial_self.attempts,
                self.phase == RetryPhase::Deciding || self.phase matches RetryPhase::Pacing {
                    ..
                } || self.phase == RetryPhase::ProbeCooldown,
                self.state == State::Closed || self.state == State::HalfOpen,
                plan_fails_below(initial_plan, failures),
                forall|i: nat| #[trigger] operation.succeeds_after(i) == initial_plan.succeeds_after(
                    i + failures,
                ),
                failures == self.failure_count + self.failed_attempts - initial_self.failed_attempts,
                initial_self.failed_attempts <= self.failed_attempts <= self.attempts,
                self.failed_attempts > initial_self.failed_attempts ==> self.failure_count
                    == self.failure_threshold,
                self.backoff.time_strategy
                    == initial_self.backoff.time_strategy.restarted().advanced_n(failures),
                last_error is Some <==> failures > 0,
                self.phase matches RetryPhase::Pacing { probe, .. } ==> self.state == State::Closed
                    && (probe ==> self.failure_count == self.failure_threshold
                    && self.failed_attempts > initial_self.failed_attempts),
                self.phase == RetryPhase::Deciding ==> (self.state == State::HalfOpen
                    ==> self.failure_count == self.failure_threshold),
                self.phase == RetryPhase::ProbeCooldown ==> self.state == State::Closed
                    && self.failure_count == self.failure_threshold && self.failed_attempts
                    > initial_self.failed_attempts,
            decreases budget - failures, self.session_rank(),
        {
            let step = self.retry_step();
            match step {
                RetryStep::Invoke => {
                    match operation.invoke() {
                        Ok(value) => {
                            self.retry_report(true);
                            proof {
                                assert(plan_first_success_at(initial_plan, failures));
                                assert forall|j: nat|
                                    j < budget && #[trigger] plan_first_success_at(
                                        initial_plan,
                                        j,
                                    ) implies j == failures by {
                                    if j < failures {
                                        assert(!initial_plan.succeeds_after(j));
                                    } else if j > failures {
                                        assert(!initial_plan.succeeds_after(failures));
                                    }
                                }
                            }
                            return Ok(value);
                        }
                        Err(error) => {
                            self.retry_report(false);
                            last_error = Option::Some(error);
                            proof {
                                failures = failures + 1;
                            }
                        }
                    }
                }
                RetryStep::Wait { nanos } => {
                    self.backoff.consume_wait(sleeper, nanos);
                }
                RetryStep::GiveUp => {
                    proof {
                        assert(failures == budget);
                    }
                    return Err(last_error.unwrap());
                }
            }
        }
    }
}

} // verus!

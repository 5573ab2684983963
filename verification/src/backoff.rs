use vstd::prelude::*;
use vstd::arithmetic::power::pow;
use vstd::arithmetic::power::lemma_pow_increases;
use vstd::arithmetic::mul::lemma_mul_inequality;
use crate::error::Error;
use crate::operation::Operation;

verus! {

/// How the next wait interval is computed: a fixed interval, or one that
/// grows by a rational factor (`factor_num / factor_den`) after every
/// failed attempt. All intervals are counted in nanoseconds.
#[derive(Debug, Clone, Copy)]
pub enum TimeStrategy {
    Constant {
        duration: u64,
    },
    Exponential {
        initial_duration: u64,
        duration: u64,
        factor_num: u32,
        factor_den: u32,
    },
}

/// The interval that one advance of an exponential strategy produces:
/// the current interval scaled by `factor_num / factor_den` (rounded down),
/// saturating at `u64::MAX` nanoseconds.
pub open spec fn next_duration(duration: u64, factor_num: u32, factor_den: u32) -> u64 {
    if factor_den == 0 {
        duration
    } else {
        let scaled = ((duration as int) * (factor_num as int)) / (factor_den as int);
        if scaled > u64::MAX as int {
            u64::MAX
        } else {
            scaled as u64
        }
    }
}

impl TimeStrategy {
    /// An exponential factor must have a nonzero denominator.
    pub open spec fn wf(self) -> bool {
        self matches TimeStrategy::Exponential { factor_den, .. } ==> factor_den >= 1
    }

    /// The wait interval that the next failed attempt will be paced by.
    pub open spec fn current(self) -> u64 {
        match self {
            TimeStrategy::Constant { duration } => duration,
            TimeStrategy::Exponential { duration, .. } => duration,
        }
    }

    /// The strategy after one failed attempt has been paced: constant
    /// strategies are unchanged, exponential ones scale their interval.
    pub open spec fn advanced(self) -> TimeStrategy {
        match self {
            TimeStrategy::Constant { duration } => TimeStrategy::Constant { duration },
            TimeStrategy::Exponential { initial_duration, duration, factor_num, factor_den } => (
                TimeStrategy::Exponential {
                    initial_duration,
                    duration: next_duration(duration, factor_num, factor_den),
                    factor_num,
                    factor_den,
                }
            ),
        }
    }

    /// The strategy after `n` failed attempts have been paced.
    pub open spec fn advanced_n(self, n: nat) -> TimeStrategy
        decreases n,
    {
        if n == 0 {
            self
        } else {
            self.advanced_n((n - 1) as nat).advanced()
        }
    }

    /// The strategy with its interval restored to the starting value.
    pub open spec fn restarted(self) -> TimeStrategy {
        match self {
            TimeStrategy::Constant { duration } => TimeStrategy::Constant { duration },
            TimeStrategy::Exponential { initial_duration, duration: _, factor_num, factor_den } => (
                TimeStrategy::Exponential {
                    initial_duration,
                    duration: initial_duration,
                    factor_num,
                    factor_den,
                }
            ),
        }
    }

    /// Restores the interval to its starting value; a no-op for a constant
    /// strategy.
    pub fn reset(&mut self)
        ensures
            *final(self) == old(self).restarted(),
    {
        match *self {
            TimeStrategy::Constant { .. } => {}
            TimeStrategy::Exponential { initial_duration, duration: _, factor_num, factor_den } => {
                *self = TimeStrategy::Exponential {
                    initial_duration,
                    duration: initial_duration,
                    factor_num,
                    factor_den,
                };
            }
        }
    }
}

/// How a computed wait interval is actually spent. `Synchronous` and
/// `SpinLoop` belong to blocking call paths; `Asynchronous` marks an
/// instance as bound to a non-blocking call path, whose waits are performed
/// by an external driver. Using a strategy from the wrong call path is a
/// contract violation, not a recoverable error.
#[derive(Debug, Clone, Copy, PartialEq, Eq, Structural)]
pub enum WaitStrategy {
    Synchronous,
    Asynchronous,
    SpinLoop,
}

/// The mechanism that spends a blocking wait, supplied by the caller of a
/// retry entry point: typically a thread sleep. No behaviour is specified;
/// waiting has no effect the contracts speak about.
pub trait Sleeper {
    /// Spends roughly the given number of nanoseconds.
    fn sleep(&mut self, nanos: u64);
}

/// Relies on std::time::Instant, an opaque monotonic timestamp.
#[verifier::external_type_specification]
#[verifier::external_body]
pub struct ExInstant(std::time::Instant);

/// Relies on std::time::Instant::now: reads the monotonic clock; nothing is
/// assumed of the value.
#[verifier::external_body]
fn instant_now() -> std::time::Instant {
    std::time::Instant::now()
}

/// Relies on std::time::Instant::checked_add: the timestamp the given
/// number of nanoseconds later, or `None` if it is not representable.
#[verifier::external_body]
fn instant_plus_nanos(start: &std::time::Instant, nanos: u64) -> Option<std::time::Instant> {
    start.checked_add(core::time::Duration::from_nanos(nanos))
}

/// Relies on std::time::Instant's `PartialOrd`: whether `a` is an earlier
/// timestamp than `b`.
#[verifier::external_body]
fn instant_is_before(a: &std::time::Instant, b: &std::time::Instant) -> bool {
    a < b
}

/// Relies on std::hint::spin_loop: hints to the processor that the thread
/// is busy-waiting.
#[verifier::external_body]
fn spin_hint() {
    std::hint::spin_loop();
}

impl WaitStrategy {
    /// Busy-polls the monotonic clock until the given number of nanoseconds
    /// has elapsed, or until an astronomically large spin budget runs out.
    /// If the deadline is not representable the wait is skipped. Nothing
    /// about real time is claimed; the loop only decides when to stop
    /// asking the clock.
    pub fn spin_loop_wait(&self, duration: &u64) {
        let start = instant_now();
        match instant_plus_nanos(&start, *duration) {
            Option::None => {}
            Option::Some(end_time) => {
                let mut spins_left: u64 = u64::MAX;
                loop
                    decreases spins_left,
                {
                    if spins_left == 0 {
                        break;
                    }
                    let now = instant_now();
                    if !instant_is_before(&now, &end_time) {
                        break;
                    }
                    spin_hint();
                    spins_left = spins_left - 1;
                }
            }
        }
    }
}

/// Collects the two mandatory choices a `Backoff` is made of; `build`
/// rejects a configuration in which either is missing.
#[derive(Debug, Clone, Copy)]
pub struct BackoffBuilder {
    pub time_strategy: Option<TimeStrategy>,
    pub wait_strategy: Option<WaitStrategy>,
}

impl BackoffBuilder {
    pub fn new() -> (r: Self)
        ensures
            r.time_strategy is None,
            r.wait_strategy is None,
    {
        Self { time_strategy: Option::None, wait_strategy: Option::None }
    }

    /// Selects a fixed wait interval, in nanoseconds.
    pub fn with_constant_time(self, duration: u64) -> (r: Self)
        ensures
            r.time_strategy == Option::Some(TimeStrategy::Constant { duration }),
            r.wait_strategy == self.wait_strategy,
    {
        Self { time_strategy: Option::Some(TimeStrategy::Constant { duration }), ..self }
    }

    /// Selects a wait interval that starts at `duration` nanoseconds and is
    /// scaled by `factor_num / factor_den` after every failed attempt.
    pub fn with_exponential_time(self, duration: u64, factor_num: u32, factor_den: u32) -> (r: Self)
        requires
            factor_den >= 1,
        ensures
            r.time_strategy == Option::Some(TimeStrategy::Exponential {
                initial_duration: duration,
                duration,
                factor_num,
                factor_den,
            }),
            r.wait_strategy == self.wait_strategy,
            r.time_strategy matches Option::Some(ts) && ts.wf(),
    {
        Self {
            time_strategy: Option::Some(TimeStrategy::Exponential {
                initial_duration: duration,
                duration,
                factor_num,
                factor_den,
            }),
            ..self
        }
    }

    /// Binds the backoff to blocking waits performed by a `Sleeper`.
    pub fn as_synchronous(self) -> (r: Self)
        ensures
            r.wait_strategy == Option::Some(WaitStrategy::Synchronous),
            r.time_strategy == self.time_strategy,
    {
        Self { wait_strategy: Option::Some(WaitStrategy::Synchronous), ..self }
    }

    /// Binds the backoff to non-blocking waits performed by an external
    /// driver.
    pub fn as_asynchronous(self) -> (r: Self)
        ensures
            r.wait_strategy == Option::Some(WaitStrategy::Asynchronous),
            r.time_strategy == self.time_strategy,
    {
        Self { wait_strategy: Option::Some(WaitStrategy::Asynchronous), ..self }
    }

    /// Binds the backoff to busy-spinning waits.
    pub fn as_spin_loop(self) -> (r: Self)
        ensures
            r.wait_strategy == Option::Some(WaitStrategy::SpinLoop),
            r.time_strategy == self.time_strategy,
    {
        Self { wait_strategy: Option::Some(WaitStrategy::SpinLoop), ..self }
    }

    /// Produces the configured `Backoff`, or a configuration error naming
    /// the first missing choice.
    pub fn build(&self) -> (r: Result<Backoff, Error>)
        ensures
            r is Ok <==> (self.time_strategy is Some && self.wait_strategy is Some),
            r matches Ok(b) ==> (self.time_strategy matches Option::Some(ts) && b.time_strategy
                == ts) && (self.wait_strategy matches Option::Some(ws) && b.wait_strategy == ws),
            r matches Err(e) ==> e.description@ == (if self.time_strategy is None {
                "Time strategy is required. Call one of 'with_*' method"@
            } else {
                "Wait strategy is required. Call one of 'as_*' method"@
            }),
    {
        match self.time_strategy {
            Option::None => Err(Error::new("Time strategy is required. Call one of 'with_*' method")),
            Option::Some(time_strategy) => match self.wait_strategy {
                Option::None => Err(Error::new("Wait strategy is required. Call one of 'as_*' method")),
                Option::Some(wait_strategy) => Ok(Backoff::new(time_strategy, wait_strategy)),
            },
        }
    }
}

/// Couples one `TimeStrategy` with one `WaitStrategy` and performs a single
/// paced attempt per `retry` call; all looping belongs to the caller.
#[derive(Debug, Clone, Copy)]
pub struct Backoff {
    pub time_strategy: TimeStrategy,
    pub wait_strategy: WaitStrategy,
}

impl Backoff {
    fn new(time_strategy: TimeStrategy, wait_strategy: WaitStrategy) -> (r: Self)
        ensures
            r.time_strategy == time_strategy,
            r.wait_strategy == wait_strategy,
    {
        Self { time_strategy, wait_strategy }
    }

    /// Restores the time strategy to its starting interval; the wait
    /// strategy is untouched.
    pub fn reset(&mut self)
        ensures
            final(self).time_strategy == old(self).time_strategy.restarted(),
            final(self).wait_strategy == old(self).wait_strategy,
    {
        self.time_strategy.reset();
    }

    /// The wait interval that the next failed attempt will be paced by.
    pub fn get_next(time_strategy: &TimeStrategy) -> (r: &u64)
        ensures
            *r == time_strategy.current(),
    {
        match time_strategy {
            TimeStrategy::Constant { duration } => duration,
            TimeStrategy::Exponential { duration, .. } => duration,
        }
    }

    /// Advances the strategy past one failed attempt: an exponential
    /// interval is scaled by its factor (saturating at `u64::MAX`), a
    /// constant one is unchanged.
    pub fn compute_next(time_strategy: &mut TimeStrategy)
        requires
            old(time_strategy).wf(),
        ensures
            *final(time_strategy) == old(time_strategy).advanced(),
    {
        match *time_strategy {
            TimeStrategy::Constant { .. } => {}
            TimeStrategy::Exponential { initial_duration, duration, factor_num, factor_den } => {
                proof {
                    lemma_mul_inequality(duration as int, u64::MAX as int, factor_num as int);
                }
                let product: u128 = (duration as u128) * (factor_num as u128);
                let scaled: u128 = product / (factor_den as u128);
                let next: u64 = if scaled > (u64::MAX as u128) {
                    u64::MAX
                } else {
                    scaled as u64
                };
                *time_strategy = TimeStrategy::Exponential {
                    initial_duration,
                    duration: next,
                    factor_num,
                    factor_den,
                };
            }
        }
    }

    /// Spends one wait of the given length according to the bound wait
    /// strategy: a `Synchronous` wait is handed to the sleeper, a
    /// `SpinLoop` wait busy-polls. An `Asynchronous` backoff must not be
    /// driven through a blocking entry point.
    pub(crate) fn consume_wait<S: Sleeper>(&self, sleeper: &mut S, nanos: u64)
        requires
            self.wait_strategy != WaitStrategy::Asynchronous,
    {
        match self.wait_strategy {
            WaitStrategy::Synchronous => sleeper.sleep(nanos),
            WaitStrategy::SpinLoop => self.wait_strategy.spin_loop_wait(&nanos),
            WaitStrategy::Asynchronous => {
                proof {
                    assert(false);
                }
            }
        }
    }

    /// Performs the operation exactly once. On success the value is
    /// returned at once and nothing changes; on failure one wait of the
    /// current interval is spent, the time strategy advances, and the
    /// failure is handed back to the caller.
    pub fn retry<O, E, Op: Operation<O, E>, S: Sleeper>(
        &mut self,
        operation: &mut Op,
        sleeper: &mut S,
    ) -> (r: Result<O, E>)
        requires
            old(self).wait_strategy != WaitStrategy::Asynchronous,
            old(self).time_strategy.wf(),
        ensures
            final(self).wait_strategy == old(self).wait_strategy,
            r is Ok <==> old(operation).succeeds_after(0),
            forall|i: nat| #[trigger] final(operation).succeeds_after(i)
                == old(operation).succeeds_after(i + 1),
            r is Ok ==> *final(self) == *old(self),
            r is Err ==> final(self).time_strategy == old(self).time_strategy.advanced(),
    {
        match operation.invoke() {
            Ok(value) => Ok(value),
            Err(error) => {
                let duration: u64 = *Self::get_next(&self.time_strategy);
                self.consume_wait(sleeper, duration);
                Self::compute_next(&mut self.time_strategy);
                Err(error)
            }
        }
    }
}

/// Law: a constant strategy is left exactly as it was by any number of
/// advances, so every failed attempt is paced by the same configured
/// interval.
pub proof fn lemma_constant_pacing_unchanged(duration: u64, n: nat)
    ensures
        (TimeStrategy::Constant { duration }).advanced_n(n) == (TimeStrategy::Constant { duration }),
        (TimeStrategy::Constant { duration }).advanced_n(n).current() == duration,
    decreases n,
{
    if n > 0 {
        lemma_constant_pacing_unchanged(duration, (n - 1) as nat);
    }
}

/// Advancing never touches the starting interval or the factor: only the
/// current interval moves.
pub proof fn lemma_advanced_n_keeps_configuration(s: TimeStrategy, n: nat)
    requires
        s is Exponential,
    ensures
        s.advanced_n(n) is Exponential,
        s.advanced_n(n)->Exponential_initial_duration == s->Exponential_initial_duration,
        s.advanced_n(n)->Exponential_factor_num == s->Exponential_factor_num,
        s.advanced_n(n)->Exponential_factor_den == s->Exponential_factor_den,
    decreases n,
{
    if n > 0 {
        lemma_advanced_n_keeps_configuration(s, (n - 1) as nat);
    }
}

/// Law: however many failed attempts a strategy has paced, a reset restores
/// exactly the strategy that a reset of the untouched original produces; in
/// particular an exponential strategy returns to its starting interval.
pub proof fn lemma_reset_restores_initial(s: TimeStrategy, n: nat)
    ensures
        s.advanced_n(n).restarted() == s.restarted(),
    decreases n,
{
    if n > 0 {
        lemma_reset_restores_initial(s, (n - 1) as nat);
    }
}

/// Law: with a whole-number factor `f` (denominator 1) and no saturation,
/// `n` failed attempts grow the interval to exactly `duration * f^n`.
pub proof fn lemma_exponential_growth(s: TimeStrategy, n: nat)
    requires
        s is Exponential,
        s->Exponential_factor_den == 1,
        s.current() * pow(s->Exponential_factor_num as int, n) <= u64::MAX,
    ensures
        s.advanced_n(n).current() == s.current() * pow(s->Exponential_factor_num as int, n),
    decreases n,
{
    let num = s->Exponential_factor_num as int;
    if n == 0 {
        assert(pow(num, 0) == 1) by {
            vstd::arithmetic::power::lemma_pow0(num);
        }
    } else {
        let m = (n - 1) as nat;
        assert(s.current() * pow(num, m) <= u64::MAX) by {
            if num == 0 {
                if m == 0 {
                    vstd::arithmetic::power::lemma_pow0(num);
                } else {
                    vstd::arithmetic::power::lemma0_pow(m);
                }
            } else {
                lemma_pow_increases(s->Exponential_factor_num as nat, m, n);
                vstd::arithmetic::power::lemma_pow_positive(num, m);
                lemma_mul_inequality(pow(num, m), pow(num, n), s.current() as int);
                vstd::arithmetic::mul::lemma_mul_is_commutative(pow(num, m), s.current() as int);
                vstd::arithmetic::mul::lemma_mul_is_commutative(pow(num, n), s.current() as int);
            }
        }
        lemma_exponential_growth(s, m);
        lemma_advanced_n_keeps_configuration(s, m);
        let prev = s.advanced_n(m);
        assert(prev.current() * num == s.current() * pow(num, n)) by {
            assert(pow(num, n) == num * pow(num, m)) by {
                reveal(pow);
            }
            vstd::arithmetic::mul::lemma_mul_is_associative(
                s.current() as int,
                pow(num, m),
                num,
            );
            vstd::arithmetic::mul::lemma_mul_is_commutative(num, pow(num, m));
        }
    }
}

} // verus!

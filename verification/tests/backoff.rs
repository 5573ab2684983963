use resilience::backoff::{Backoff, BackoffBuilder, Sleeper, TimeStrategy, WaitStrategy};
use resilience::error::Error;
use resilience::operation::{Operation, ScriptedOperation};

const TIME: u64 = 100_000_000;

struct NoopSleeper;

impl Sleeper for NoopSleeper {
    fn sleep(&mut self, _nanos: u64) {}
}

struct CountingSleeper {
    calls: usize,
}

impl Sleeper for CountingSleeper {
    fn sleep(&mut self, _nanos: u64) {
        self.calls += 1;
    }
}

#[test]
fn missing_with_time_method_in_builder() {
    let backoff = BackoffBuilder::new().as_synchronous().build();
    assert_eq!(
        "Time strategy is required. Call one of 'with_*' method",
        backoff.unwrap_err().description
    );
}

#[test]
fn missing_with_as_method_in_builder() {
    let backoff = BackoffBuilder::new().with_constant_time(TIME).build();
    assert_eq!(
        "Wait strategy is required. Call one of 'as_*' method",
        backoff.unwrap_err().description
    );
}

#[test]
fn with_constant_time() {
    let mut failed_operation = ScriptedOperation::failing();
    let mut sleeper = NoopSleeper;
    let mut backoff = BackoffBuilder::new()
        .with_constant_time(TIME)
        .as_synchronous()
        .build()
        .unwrap();
    let _ = backoff.retry(&mut failed_operation, &mut sleeper);
    assert_eq!(TIME, *Backoff::get_next(&backoff.time_strategy));
    let _ = backoff.retry(&mut failed_operation, &mut sleeper);
    assert_eq!(TIME, *Backoff::get_next(&backoff.time_strategy));
}

#[test]
fn with_constant_time_then_reset() {
    let mut failed_operation = ScriptedOperation::failing();
    let mut sleeper = NoopSleeper;
    let mut backoff = BackoffBuilder::new()
        .with_constant_time(TIME)
        .as_synchronous()
        .build()
        .unwrap();
    let _ = backoff.retry(&mut failed_operation, &mut sleeper);
    assert_eq!(TIME, *Backoff::get_next(&backoff.time_strategy));
    backoff.reset();
    let _ = backoff.retry(&mut failed_operation, &mut sleeper);
    assert_eq!(TIME, *Backoff::get_next(&backoff.time_strategy));
}

#[test]
fn with_exponential_time() {
    let mut failed_operation = ScriptedOperation::failing();
    let mut sleeper = NoopSleeper;
    let mut backoff = BackoffBuilder::new()
        .with_exponential_time(TIME, 2, 1)
        .as_synchronous()
        .build()
        .unwrap();
    let _ = backoff.retry(&mut failed_operation, &mut sleeper);
    assert_eq!(TIME * 2, *Backoff::get_next(&backoff.time_strategy));
    let _ = backoff.retry(&mut failed_operation, &mut sleeper);
    assert_eq!(TIME * 4, *Backoff::get_next(&backoff.time_strategy));
}

#[test]
fn with_exponential_time_then_reset() {
    let mut failed_operation = ScriptedOperation::failing();
    let mut sleeper = NoopSleeper;
    let mut backoff = BackoffBuilder::new()
        .with_exponential_time(TIME, 2, 1)
        .as_synchronous()
        .build()
        .unwrap();
    let _ = backoff.retry(&mut failed_operation, &mut sleeper);
    assert_eq!(TIME * 2, *Backoff::get_next(&backoff.time_strategy));
    backoff.reset();
    let _ = backoff.retry(&mut failed_operation, &mut sleeper);
    assert_eq!(TIME * 2, *Backoff::get_next(&backoff.time_strategy));
}

#[test]
fn with_exponential_time_fractional_factor() {
    let mut failed_operation = ScriptedOperation::failing();
    let mut sleeper = NoopSleeper;
    let mut backoff = BackoffBuilder::new()
        .with_exponential_time(100, 3, 2)
        .as_synchronous()
        .build()
        .unwrap();
    let _ = backoff.retry(&mut failed_operation, &mut sleeper);
    assert_eq!(150, *Backoff::get_next(&backoff.time_strategy));
    let _ = backoff.retry(&mut failed_operation, &mut sleeper);
    assert_eq!(225, *Backoff::get_next(&backoff.time_strategy));
}

#[test]
fn with_exponential_time_saturates() {
    let mut failed_operation = ScriptedOperation::failing();
    let mut sleeper = NoopSleeper;
    let mut backoff = BackoffBuilder::new()
        .with_exponential_time(u64::MAX - 1, 2, 1)
        .as_synchronous()
        .build()
        .unwrap();
    let _ = backoff.retry(&mut failed_operation, &mut sleeper);
    assert_eq!(u64::MAX, *Backoff::get_next(&backoff.time_strategy));
    let _ = backoff.retry(&mut failed_operation, &mut sleeper);
    assert_eq!(u64::MAX, *Backoff::get_next(&backoff.time_strategy));
}

#[test]
fn success_with_constant_time_and_as_sync() {
    let mut success_operation = ScriptedOperation::succeeding();
    let mut sleeper = NoopSleeper;
    let mut backoff = BackoffBuilder::new()
        .with_constant_time(TIME)
        .as_synchronous()
        .build()
        .unwrap();
    let result = backoff.retry(&mut success_operation, &mut sleeper);
    assert_eq!(true, result.is_ok());
}

#[test]
fn failed_with_constant_time_and_as_sync() {
    let mut failed_operation = ScriptedOperation::failing();
    let mut sleeper = NoopSleeper;
    let mut backoff = BackoffBuilder::new()
        .with_constant_time(TIME)
        .as_synchronous()
        .build()
        .unwrap();
    let result = backoff.retry(&mut failed_operation, &mut sleeper);
    assert_eq!(true, result.is_err());
}

#[test]
fn success_with_constant_time_and_as_spin_loop() {
    let mut success_operation = ScriptedOperation::succeeding();
    let mut sleeper = NoopSleeper;
    let mut backoff = BackoffBuilder::new()
        .with_constant_time(1_000_000)
        .as_spin_loop()
        .build()
        .unwrap();
    let result = backoff.retry(&mut success_operation, &mut sleeper);
    assert_eq!(true, result.is_ok());
}

#[test]
fn failed_with_constant_time_and_as_spin_loop() {
    let mut failed_operation = ScriptedOperation::failing();
    let mut sleeper = NoopSleeper;
    let mut backoff = BackoffBuilder::new()
        .with_constant_time(1_000_000)
        .as_spin_loop()
        .build()
        .unwrap();
    let result = backoff.retry(&mut failed_operation, &mut sleeper);
    assert_eq!(true, result.is_err());
}

#[test]
fn success_skips_the_wait_step() {
    let mut success_operation = ScriptedOperation::succeeding();
    let mut sleeper = CountingSleeper { calls: 0 };
    let mut backoff = BackoffBuilder::new()
        .with_constant_time(TIME)
        .as_synchronous()
        .build()
        .unwrap();
    let result = backoff.retry(&mut success_operation, &mut sleeper);
    assert_eq!(true, result.is_ok());
    assert_eq!(0, sleeper.calls);
}

#[test]
fn failure_spends_one_wait() {
    let mut failed_operation = ScriptedOperation::failing();
    let mut sleeper = CountingSleeper { calls: 0 };
    let mut backoff = BackoffBuilder::new()
        .with_constant_time(TIME)
        .as_synchronous()
        .build()
        .unwrap();
    let result = backoff.retry(&mut failed_operation, &mut sleeper);
    assert_eq!(true, result.is_err());
    assert_eq!(1, sleeper.calls);
}

#[test]
fn spin_loop_wait_returns_after_the_interval() {
    let strategy = WaitStrategy::SpinLoop;
    let before = std::time::Instant::now();
    strategy.spin_loop_wait(&2_000_000);
    let elapsed = before.elapsed();
    assert!(elapsed >= std::time::Duration::from_nanos(2_000_000));
    strategy.spin_loop_wait(&0);
}

#[test]
fn scripted_operation_follows_its_script() {
    let mut op = ScriptedOperation::recovering_after(1);
    let first: Result<(), Error> = op.invoke();
    assert_eq!("Something went wrong.", first.unwrap_err().description);
    let second: Result<(), Error> = op.invoke();
    assert_eq!(true, second.is_ok());
    let third: Result<(), Error> = op.invoke();
    assert_eq!(true, third.is_ok());
}

#[test]
fn build_keeps_the_chosen_strategies() {
    let backoff = BackoffBuilder::new()
        .with_constant_time(TIME)
        .as_asynchronous()
        .build()
        .unwrap();
    assert!(matches!(backoff.wait_strategy, WaitStrategy::Asynchronous));
    assert!(matches!(
        backoff.time_strategy,
        TimeStrategy::Constant { duration: TIME }
    ));
}

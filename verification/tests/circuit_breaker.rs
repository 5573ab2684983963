use resilience::backoff::{BackoffBuilder, Sleeper};
use resilience::circuit_breaker::{CircuitBreaker, CircuitBreakerBuilder, State};
use resilience::error::Error;
use resilience::operation::ScriptedOperation;

const TIME: u64 = 100_000_000;

struct NoopSleeper;

impl Sleeper for NoopSleeper {
    fn sleep(&mut self, _nanos: u64) {}
}

fn circuit_breaker() -> CircuitBreaker {
    CircuitBreakerBuilder::new()
        .with_attempts(2)
        .with_failure_threshold(2)
        .with_reset_timeout(TIME * 2)
        .with_backoff(
            BackoffBuilder::new()
                .with_constant_time(TIME)
                .as_synchronous()
                .build()
                .unwrap(),
        )
        .build()
        .unwrap()
}

#[test]
fn with_success_operation() {
    let mut breaker = circuit_breaker();
    let mut success_operation = ScriptedOperation::succeeding();
    let mut sleeper = NoopSleeper;
    let result: Result<(), Error> = breaker.retry(&mut success_operation, &mut sleeper);
    assert_eq!(true, result.is_ok());
    assert_eq!(State::Closed, breaker.state);
    assert_eq!(0, breaker.failed_attempts);
    assert_eq!(0, breaker.failure_count);
}

#[test]
fn with_failed_operation() {
    let mut breaker = circuit_breaker();
    let mut failed_operation = ScriptedOperation::failing();
    let mut sleeper = NoopSleeper;
    let result: Result<(), Error> = breaker.retry(&mut failed_operation, &mut sleeper);
    assert_eq!(true, result.is_err());
    assert_eq!(State::HalfOpen, breaker.state);
    assert_eq!(2, breaker.failed_attempts);
    assert_eq!(2, breaker.failure_count);
}

#[test]
fn with_failed_operation_then_recovered_at_first_attempt() {
    let mut breaker = circuit_breaker();
    let mut operation = ScriptedOperation::recovering_after(2);
    let mut sleeper = NoopSleeper;
    let result: Result<(), Error> = breaker.retry(&mut operation, &mut sleeper);
    assert_eq!(true, result.is_ok());
    assert_eq!(State::Closed, breaker.state);
    assert_eq!(0, breaker.failed_attempts);
    assert_eq!(2, breaker.failure_count);
}

#[test]
fn with_failed_operation_then_recovered_at_second_attempt() {
    let mut breaker = circuit_breaker();
    let mut operation = ScriptedOperation::recovering_after(3);
    let mut sleeper = NoopSleeper;
    let result: Result<(), Error> = breaker.retry(&mut operation, &mut sleeper);
    assert_eq!(true, result.is_ok());
    assert_eq!(State::Closed, breaker.state);
    assert_eq!(1, breaker.failed_attempts);
    assert_eq!(2, breaker.failure_count);
}

#[test]
fn open_circuit_short_circuits_retry() {
    let mut breaker = circuit_breaker();
    breaker.state = State::Open;
    let mut operation = ScriptedOperation::succeeding();
    let mut sleeper = NoopSleeper;
    let result: Result<(), Error> = breaker.retry(&mut operation, &mut sleeper);
    assert_eq!(
        "Circuit breaker is open",
        result.unwrap_err().description
    );
    assert_eq!(State::Open, breaker.state);
    assert_eq!(Some(0), operation.failures_left);
}

#[test]
fn single_attempt_tolerates_one_probe() {
    let mut breaker = CircuitBreakerBuilder::new()
        .with_attempts(1)
        .with_failure_threshold(2)
        .with_reset_timeout(TIME)
        .with_backoff(
            BackoffBuilder::new()
                .with_constant_time(TIME)
                .as_synchronous()
                .build()
                .unwrap(),
        )
        .build()
        .unwrap();
    let mut failed_operation = ScriptedOperation::failing();
    let mut sleeper = NoopSleeper;
    let result: Result<(), Error> = breaker.retry(&mut failed_operation, &mut sleeper);
    assert_eq!(true, result.is_err());
    assert_eq!(State::HalfOpen, breaker.state);
    assert_eq!(1, breaker.failed_attempts);
    assert_eq!(2, breaker.failure_count);
}

#[test]
fn builder_defaults_attempts_and_threshold() {
    let breaker = CircuitBreakerBuilder::new()
        .with_reset_timeout(TIME)
        .with_backoff(
            BackoffBuilder::new()
                .with_constant_time(TIME)
                .as_synchronous()
                .build()
                .unwrap(),
        )
        .build()
        .unwrap();
    assert_eq!(1, breaker.attempts);
    assert_eq!(2, breaker.failure_threshold);
    assert_eq!(State::Closed, breaker.state);
}

#[test]
fn missing_reset_timeout_in_builder() {
    let breaker = CircuitBreakerBuilder::new()
        .with_backoff(
            BackoffBuilder::new()
                .with_constant_time(TIME)
                .as_synchronous()
                .build()
                .unwrap(),
        )
        .build();
    assert_eq!("Reset timeout is required", breaker.unwrap_err().description);
}

#[test]
fn missing_backoff_in_builder() {
    let breaker = CircuitBreakerBuilder::new()
        .with_reset_timeout(TIME)
        .build();
    assert_eq!("Backoff is required", breaker.unwrap_err().description);
}

#[test]
fn manual_reset_keeps_failed_attempts() {
    let mut breaker = circuit_breaker();
    let mut failed_operation = ScriptedOperation::failing();
    let mut sleeper = NoopSleeper;
    let _: Result<(), Error> = breaker.retry(&mut failed_operation, &mut sleeper);
    assert_eq!(2, breaker.failed_attempts);
    breaker.reset();
    assert_eq!(State::Closed, breaker.state);
    assert_eq!(0, breaker.failure_count);
    assert_eq!(2, breaker.failed_attempts);
}

#[test]
fn retry_resets_the_closed_counter_each_call() {
    let mut breaker = circuit_breaker();
    let mut first = ScriptedOperation::recovering_after(2);
    let mut sleeper = NoopSleeper;
    let first_result: Result<(), Error> = breaker.retry(&mut first, &mut sleeper);
    assert_eq!(true, first_result.is_ok());
    assert_eq!(2, breaker.failure_count);
    let mut second = ScriptedOperation::succeeding();
    let second_result: Result<(), Error> = breaker.retry(&mut second, &mut sleeper);
    assert_eq!(true, second_result.is_ok());
    assert_eq!(0, breaker.failure_count);
    assert_eq!(State::Closed, breaker.state);
}

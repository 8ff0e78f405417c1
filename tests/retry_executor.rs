use std::time::Duration;

use backoff::ExponentialBackoff;
use lpp_recorder::retry::{decide, RetryExecutor, RetryStep, RetryableError, RetryableResult};

fn transient(after: Option<Duration>) -> RetryableResult<u32, String> {
    RetryableResult::TransientErr { error: "busy".to_string(), override_retry_after: after }
}

#[test]
fn success_returns_at_once() {
    let step = decide::<u32, String>(RetryableResult::Success(7), None);
    assert!(matches!(step, RetryStep::Finished(Ok(7))));
}

#[test]
fn permanent_error_ends_the_operation() {
    let step = decide::<u32, String>(
        RetryableResult::PermanentErr { error: "schema".to_string() },
        Some(Duration::from_secs(2)),
    );
    match step {
        RetryStep::Finished(Err(RetryableError::PermamentError { error })) => {
            assert_eq!(error, "schema")
        }
        _ => panic!("expected a permanent error"),
    }
}

#[test]
fn transient_error_waits_as_the_policy_says() {
    let step = decide(transient(None), Some(Duration::from_millis(2100)));
    assert!(matches!(step, RetryStep::RetryAfter(d) if d == Duration::from_millis(2100)));
}

#[test]
fn explicit_retry_after_wins_over_the_policy() {
    let step = decide(transient(Some(Duration::from_secs(30))), Some(Duration::from_secs(2)));
    assert!(matches!(step, RetryStep::RetryAfter(d) if d == Duration::from_secs(30)));
}

#[test]
fn explicit_retry_after_does_not_outlast_the_budget() {
    let step = decide(transient(Some(Duration::from_secs(30))), None);
    assert!(matches!(step, RetryStep::Finished(Err(RetryableError::TimedOut))));
}

#[test]
fn spent_policy_times_out() {
    let step = decide(transient(None), None);
    assert!(matches!(step, RetryStep::Finished(Err(RetryableError::TimedOut))));
}

#[test]
fn transient_errors_then_success_take_k_plus_one_attempts() {
    let mut executor = RetryExecutor::new(ExponentialBackoff::default());
    let k = 4;
    let mut attempts = 0;
    let result = loop {
        attempts += 1;
        let verdict = if attempts <= k {
            transient(Some(Duration::from_millis(1)))
        } else {
            RetryableResult::Success(99)
        };
        match executor.after_attempt(verdict) {
            RetryStep::Finished(result) => break result,
            RetryStep::RetryAfter(wait) => assert_eq!(wait, Duration::from_millis(1)),
        }
    };
    assert_eq!(attempts, k + 1);
    assert!(matches!(result, Ok(99)));
}

#[test]
fn permanent_error_on_first_attempt_takes_one_attempt() {
    let mut executor = RetryExecutor::new(ExponentialBackoff::default());
    let mut attempts = 0;
    let result = loop {
        attempts += 1;
        let verdict: RetryableResult<u32, String> = if attempts == 1 {
            RetryableResult::PermanentErr { error: "bad schema".to_string() }
        } else {
            RetryableResult::Success(1)
        };
        match executor.after_attempt(verdict) {
            RetryStep::Finished(result) => break result,
            RetryStep::RetryAfter(_) => {}
        }
    };
    assert_eq!(attempts, 1);
    assert!(matches!(result, Err(RetryableError::PermamentError { .. })));
}

#[test]
fn policy_waits_grow_from_the_initial_interval() {
    let mut executor = RetryExecutor::new(ExponentialBackoff::default());
    match executor.after_attempt(transient(None)) {
        RetryStep::RetryAfter(wait) => assert!(wait <= Duration::from_secs(2)),
        RetryStep::Finished(_) => panic!("a fresh policy grants a wait"),
    }
}

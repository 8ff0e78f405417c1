//! The retry executor: turns an unreliable remote call into a bounded,
//! policy-driven sequence of attempts.
//!
//! The caller makes each attempt, classifies its outcome into a
//! [`RetryableResult`] and hands it to [`RetryExecutor::after_attempt`], which
//! says whether to stop (with the final result) or to wait and try again.

use std::time::Duration;

use backoff::backoff::Backoff;
use backoff::exponential::ExponentialBackoff;
use backoff::SystemClock;
use vstd::prelude::*;

verus! {

#[verifier::external_type_specification]
#[verifier::external_body]
#[verifier::reject_recursive_types(C)]
pub struct ExExponentialBackoff<C>(ExponentialBackoff<C>);

#[verifier::external_type_specification]
#[verifier::external_body]
pub struct ExSystemClock(SystemClock);

/// Relies on `backoff::backoff::Backoff::next_backoff` for
/// `ExponentialBackoff`: the next randomized interval, or none once the
/// elapsed-time budget is spent. It reads the clock and draws a random number,
/// so nothing is promised of the value.
#[verifier::external_body]
fn next_backoff(policy: &mut ExponentialBackoff<SystemClock>) -> (r: Option<Duration>) {
    policy.next_backoff()
}

/// How one attempt turned out, as the caller's classifier judges it.
pub enum RetryableResult<O, E> {
    Success(O),
    PermanentErr { error: E },
    TransientErr { error: E, override_retry_after: Option<Duration> },
}

/// Why a retried operation did not produce a value.
#[derive(Debug)]
pub enum RetryableError<E> {
    /// The classifier judged an attempt's error permanent.
    PermamentError { error: E },
    /// The backoff policy's time budget ran out.
    TimedOut,
}

/// What to do after an attempt.
pub enum RetryStep<R, E> {
    /// Stop: this is the result of the whole operation.
    Finished(Result<R, RetryableError<E>>),
    /// Wait this long, then make another attempt.
    RetryAfter(Duration),
}

/// The step that follows an attempt with outcome `verdict`, where `scheduled`
/// is the wait the backoff policy produced for it (none once its budget is
/// spent). After a transient error the operation times out once the budget is
/// spent; otherwise it waits the explicit retry-after if there is one, else the
/// policy's wait.
pub open spec fn step_spec<R, E>(verdict: RetryableResult<R, E>, scheduled: Option<Duration>) -> RetryStep<R, E> {
    match verdict {
        RetryableResult::Success(value) => RetryStep::Finished(Ok(value)),
        RetryableResult::PermanentErr { error } => RetryStep::Finished(
            Err(RetryableError::PermamentError { error }),
        ),
        RetryableResult::TransientErr { error, override_retry_after } => match scheduled {
            None => RetryStep::Finished(Err(RetryableError::TimedOut)),
            Some(wait) => match override_retry_after {
                Some(after) => RetryStep::RetryAfter(after),
                None => RetryStep::RetryAfter(wait),
            },
        },
    }
}

/// Decides the step after an attempt, given the wait the policy produced.
pub fn decide<R, E>(verdict: RetryableResult<R, E>, scheduled: Option<Duration>) -> (r: RetryStep<R, E>)
    ensures
        r == step_spec(verdict, scheduled),
{
    match verdict {
        RetryableResult::Success(value) => RetryStep::Finished(Ok(value)),
        RetryableResult::PermanentErr { error } => RetryStep::Finished(
            Err(RetryableError::PermamentError { error }),
        ),
        RetryableResult::TransientErr { error, override_retry_after } => match scheduled {
            None => RetryStep::Finished(Err(RetryableError::TimedOut)),
            Some(wait) => match override_retry_after {
                Some(after) => RetryStep::RetryAfter(after),
                None => RetryStep::RetryAfter(wait),
            },
        },
    }
}

/// The state of one retried operation: its backoff policy.
pub struct RetryExecutor {
    policy: ExponentialBackoff<SystemClock>,
}

impl RetryExecutor {
    pub fn new(policy: ExponentialBackoff<SystemClock>) -> (r: Self) {
        Self { policy }
    }

    /// Judges the outcome of one attempt. A success or a permanent error ends
    /// the operation at once, without consulting the policy. A transient error
    /// advances the policy: the operation times out once the policy has no wait
    /// left, and otherwise waits the explicit retry-after if there is one, else
    /// the policy's wait.
    pub fn after_attempt<R, E>(&mut self, verdict: RetryableResult<R, E>) -> (r: RetryStep<R, E>)
        ensures
            !(verdict is TransientErr) ==> r == step_spec(verdict, None),
            exists|scheduled: Option<Duration>| r == step_spec(verdict, scheduled),
    {
        let scheduled = match &verdict {
            RetryableResult::TransientErr { .. } => next_backoff(&mut self.policy),
            _ => None,
        };
        decide(verdict, scheduled)
    }
}

/// The steps of a run whose attempts turned out as `verdicts`, with the waits
/// the policy produced in `schedule`.
pub open spec fn run_steps<R, E>(
    verdicts: Seq<RetryableResult<R, E>>,
    schedule: Seq<Option<Duration>>,
) -> Seq<RetryStep<R, E>> {
    Seq::new(verdicts.len(), |i: int| step_spec(verdicts[i], schedule[i]))
}

/// The number of attempts a run makes: up to and including the first step that
/// finishes it.
pub open spec fn attempts_made<R, E>(steps: Seq<RetryStep<R, E>>) -> nat
    decreases steps.len(),
{
    if steps.len() == 0 {
        0
    } else if steps[0] is Finished {
        1
    } else {
        1 + attempts_made(steps.drop_first())
    }
}

/// When the first `k` attempts fail transiently, while the policy still grants
/// a wait each time, and the next one succeeds, the operation returns that success after
/// exactly `k + 1` attempts, and each wait in between is the explicit
/// retry-after or else the policy's.
pub proof fn lemma_transient_then_success<R, E>(
    verdicts: Seq<RetryableResult<R, E>>,
    schedule: Seq<Option<Duration>>,
    k: nat,
    value: R,
)
    requires
        verdicts.len() == k + 1,
        schedule.len() == k + 1,
        forall|i: int| 0 <= i < k ==> (#[trigger] verdicts[i] is TransientErr),
        forall|i: int|
            0 <= i < k ==> (#[trigger] schedule[i] is Some),
        verdicts[k as int] == RetryableResult::<R, E>::Success(value),
    ensures
        attempts_made(run_steps(verdicts, schedule)) == k + 1,
        run_steps(verdicts, schedule)[k as int] == RetryStep::<R, E>::Finished(Ok(value)),
        forall|i: int|
            0 <= i < k ==> #[trigger] run_steps(verdicts, schedule)[i] == RetryStep::<R, E>::RetryAfter(
                match verdicts[i]->override_retry_after {
                    Some(after) => after,
                    None => schedule[i]->0,
                },
            ),
    decreases k,
{
    let steps = run_steps(verdicts, schedule);
    if k > 0 {
        assert(verdicts[0] is TransientErr);
        assert(schedule[0] is Some);
        lemma_transient_then_success(verdicts.drop_first(), schedule.drop_first(), (k - 1) as nat, value);
        assert(run_steps(verdicts.drop_first(), schedule.drop_first()) =~= steps.drop_first());
        assert(steps[0] is RetryAfter);
    }
}

/// A run of transient errors stops, timed out, at the first attempt for which
/// the policy has no wait left, explicit retry-after or not.
pub proof fn lemma_budget_bounds_attempts<R, E>(
    verdicts: Seq<RetryableResult<R, E>>,
    schedule: Seq<Option<Duration>>,
    k: nat,
)
    requires
        verdicts.len() == k + 1,
        schedule.len() == k + 1,
        forall|i: int| 0 <= i <= k ==> (#[trigger] verdicts[i] is TransientErr),
        forall|i: int| 0 <= i < k ==> (#[trigger] schedule[i] is Some),
        schedule[k as int] is None,
    ensures
        attempts_made(run_steps(verdicts, schedule)) == k + 1,
        run_steps(verdicts, schedule)[k as int] == RetryStep::<R, E>::Finished(
            Err(RetryableError::TimedOut),
        ),
    decreases k,
{
    let steps = run_steps(verdicts, schedule);
    if k > 0 {
        assert(verdicts[0] is TransientErr);
        assert(schedule[0] is Some);
        lemma_budget_bounds_attempts(verdicts.drop_first(), schedule.drop_first(), (k - 1) as nat);
        assert(run_steps(verdicts.drop_first(), schedule.drop_first()) =~= steps.drop_first());
        assert(steps[0] is RetryAfter);
    }
}

/// A permanent error on the first attempt ends the operation after that one
/// attempt, with that error.
pub proof fn lemma_permanent_short_circuit<R, E>(
    verdicts: Seq<RetryableResult<R, E>>,
    schedule: Seq<Option<Duration>>,
    error: E,
)
    requires
        verdicts.len() >= 1,
        schedule.len() == verdicts.len(),
        verdicts[0] == (RetryableResult::<R, E>::PermanentErr { error }),
    ensures
        attempts_made(run_steps(verdicts, schedule)) == 1,
        run_steps(verdicts, schedule)[0] == (RetryStep::<R, E>::Finished(
            Err(RetryableError::PermamentError { error }),
        )),
{
}

} // verus!

//! The scheduling loop's decision after a cycle.

use vstd::prelude::*;

use crate::cli::RunMode;

verus! {

/// What the scheduling loop does once a cycle has succeeded.
#[derive(Clone, Copy, PartialEq, Eq, Debug, Structural)]
pub enum AfterCycle {
    /// Run mode `once`: stop.
    Exit,
    /// Sleep this many milliseconds, then check for cancellation and run the
    /// next cycle.
    SleepMillis(u64),
}

/// After a cycle that took `elapsed_millis`, the loop stops in run mode
/// `once`; otherwise it sleeps what is left of the interval, or not at all
/// when the cycle took the whole interval or longer.
pub fn after_cycle(run_mode: RunMode, interval_millis: u64, elapsed_millis: u64) -> (r: AfterCycle)
    ensures
        run_mode == RunMode::Once ==> r == AfterCycle::Exit,
        run_mode == RunMode::Perpetual ==> r == AfterCycle::SleepMillis(
            if interval_millis > elapsed_millis {
                (interval_millis - elapsed_millis) as u64
            } else {
                0
            },
        ),
{
    match run_mode {
        RunMode::Once => AfterCycle::Exit,
        RunMode::Perpetual => AfterCycle::SleepMillis(interval_millis.saturating_sub(elapsed_millis)),
    }
}

/// What the scheduling loop does once a cycle has failed.
#[derive(Clone, Copy, PartialEq, Eq, Debug, Structural)]
pub enum AfterFailedCycle {
    /// Run mode `once`: stop with the cycle's error.
    GiveUp,
    /// Sleep this many milliseconds, then check for cancellation and run the
    /// next cycle.
    SleepMillis(u64),
}

/// After a cycle that failed once `elapsed_millis` had passed, the loop gives
/// up in run mode `once`; otherwise it waits for the next scheduled cycle, as
/// after a successful one.
pub fn after_failed_cycle(run_mode: RunMode, interval_millis: u64, elapsed_millis: u64) -> (r: AfterFailedCycle)
    ensures
        run_mode == RunMode::Once ==> r == AfterFailedCycle::GiveUp,
        run_mode == RunMode::Perpetual ==> r == AfterFailedCycle::SleepMillis(
            if interval_millis > elapsed_millis {
                (interval_millis - elapsed_millis) as u64
            } else {
                0
            },
        ),
{
    match run_mode {
        RunMode::Once => AfterFailedCycle::GiveUp,
        RunMode::Perpetual => AfterFailedCycle::SleepMillis(interval_millis.saturating_sub(elapsed_millis)),
    }
}

} // verus!

//! A flag, shared between tasks, that asks the scheduling loop to stop.

use std::sync::atomic::{AtomicBool, Ordering};
use std::sync::Arc;
use vstd::prelude::*;

verus! {

/// A cancellation flag shared by reference: every clone sees the same flag.
/// What `is_cancelled` returns depends on the other holders, so nothing is
/// promised of it.
#[derive(Clone, Debug)]
pub struct CancellationToken {
    is_cancelled: Arc<AtomicBool>,
}

impl CancellationToken {
    pub fn new() -> (r: Self) {
        Self { is_cancelled: Arc::new(AtomicBool::new(false)) }
    }

    pub fn is_cancelled(&self) -> (r: bool) {
        self.is_cancelled.load(Ordering::SeqCst)
    }

    pub fn cancel(&self) {
        self.is_cancelled.store(true, Ordering::SeqCst);
    }
}

} // verus!

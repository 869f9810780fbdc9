//! Cooperative cancellation shared between a request and its workers.
use vstd::prelude::*;

use std::sync::Arc;
use std::sync::atomic::AtomicBool;

verus! {

/// A flag that a request's owner raises to ask its workers to stop.
///
/// The flag is shared between threads, so an observation only says what the flag held
/// at that moment.
#[derive(Clone, Debug)]
pub struct CancellationToken {
    cancelled: Arc<AtomicBool>,
}

impl CancellationToken {
    /// A token that has not been cancelled yet.
    pub fn new() -> (r: Self) {
        CancellationToken { cancelled: Arc::new(AtomicBool::new(false)) }
    }

    /// Whether cancellation has been requested by the time of the call.
    pub fn is_cancelled(&self) -> bool {
        self.cancelled.load(std::sync::atomic::Ordering::Acquire)
    }

    /// Requests cancellation; every clone of the token observes it from now on.
    pub fn cancel(&self) {
        self.cancelled.store(true, std::sync::atomic::Ordering::Release);
    }
}

impl Default for CancellationToken {
    fn default() -> (r: Self) {
        CancellationToken::new()
    }
}

} // verus!

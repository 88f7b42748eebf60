//! The cancellation signal of one run.

use std::sync::atomic::{AtomicBool, Ordering};
use std::sync::Arc;
use vstd::prelude::*;

verus! {

/// A one-shot flag shared between the controller, which sets it, and the
/// supervising context of a run, which reads it.
///
/// The flag starts cleared and is only ever set. Because the other side may
/// read or write it at any moment, nothing is stated of what a read returns.
pub struct Stopper {
    stop_flg: Arc<AtomicBool>,
}

impl Stopper {
    /// A fresh signal, not yet set.
    pub fn new() -> (stopper: Stopper) {
        Stopper { stop_flg: Arc::new(AtomicBool::new(false)) }
    }

    /// Requests that the run observing this signal end.
    pub fn send_stop_signal(&self) {
        self.stop_flg.store(true, Ordering::Relaxed);
    }

    /// Whether a stop has been requested, as far as this context can see.
    pub fn is_stop_requested(&self) -> (requested: bool) {
        self.stop_flg.load(Ordering::Relaxed)
    }

    /// A second handle on the same flag: as values the two are equal.
    pub fn share(&self) -> (other: Stopper)
        ensures
            other == *self,
    {
        Stopper { stop_flg: Arc::clone(&self.stop_flg) }
    }
}

} // verus!

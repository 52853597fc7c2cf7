use vstd::prelude::*;
use std::sync::atomic::{AtomicBool, Ordering};
use std::sync::Arc;

verus! {

/// A cancellation token shared by reference between the workers of a run and
/// its collector. Clones share one flag; once set it is never cleared.
///
/// The flag is read and written by other threads, so a read here promises
/// nothing about its value.
#[derive(Clone)]
pub struct Shutdown {
    cancelled: Arc<AtomicBool>,
}

impl Shutdown {
    /// A fresh token, not yet cancelled.
    pub fn new() -> (r: Self) {
        Self { cancelled: Arc::new(AtomicBool::new(false)) }
    }

    /// Sets the flag; safe to call many times and from many threads.
    pub fn cancel(&self) {
        self.cancelled.store(true, Ordering::SeqCst);
    }

    /// Reads the flag.
    pub fn is_cancelled(&self) -> (r: bool) {
        self.cancelled.load(Ordering::SeqCst)
    }
}

impl Default for Shutdown {
    /// A fresh token, not yet cancelled; the same as `Shutdown::new`.
    fn default() -> (r: Self) {
        Self::new()
    }
}

} // verus!

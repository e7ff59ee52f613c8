//! The worker's teardown guard.

use std::sync::atomic::AtomicBool;
use std::sync::atomic::Ordering;
use std::sync::Arc;
use vstd::prelude::*;

verus! {

/// Raises the shared exit flag when it goes out of scope. The worker holds one
/// for as long as it runs, so the flag is raised on every way out of the
/// worker, a panic included.
pub struct Finalizer {
    exit_sender: Arc<AtomicBool>,
}

impl Finalizer {
    /// The flag that this guard raises.
    pub closed spec fn flag(&self) -> Arc<AtomicBool> {
        self.exit_sender
    }

    /// A guard for the flag `exit_sender`.
    pub fn new(exit_sender: Arc<AtomicBool>) -> (guard: Self)
        ensures
            guard.flag() == exit_sender,
    {
        Finalizer { exit_sender }
    }
}

impl Drop for Finalizer {
    /// Stores `true` in the flag.
    ///
    /// Trusted: std's `AtomicBool::store`, of which the contract claims only
    /// that it does not unwind. What other threads read from the flag
    /// afterwards is not stated.
    #[verifier::external_body]
    fn drop(&mut self)
        opens_invariants none
        no_unwind
    {
        self.exit_sender.store(true, Ordering::Relaxed);
    }
}

} // verus!

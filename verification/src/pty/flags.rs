//! The two flags by which the reader worker tells the rest of a session how
//! far it is. They are shared between threads; what a look at a flag finds
//! can be out of date the moment it is found.

use std::sync::atomic::{AtomicBool, Ordering};
use std::sync::Arc;
use vstd::prelude::*;

verus! {

/// The flags of a reader worker.
pub struct ReaderFlags {
    /// Raised once the reader no longer waits for the process handle.
    ready: AtomicBool,
    /// Lowered once the reader has ended.
    alive: AtomicBool,
}

impl ReaderFlags {
    /// The flags of a reader that was just started: not ready, alive.
    pub fn new() -> ReaderFlags {
        ReaderFlags { ready: AtomicBool::new(false), alive: AtomicBool::new(true) }
    }

    /// Whether the reader no longer waits for the process handle.
    pub fn is_ready(&self) -> bool {
        self.ready.load(Ordering::Acquire)
    }

    /// Whether the reader has not ended yet.
    pub fn is_alive(&self) -> bool {
        self.alive.load(Ordering::Acquire)
    }

    /// Tells that the reader no longer waits for the process handle.
    pub(crate) fn raise_ready(&self) {
        self.ready.store(true, Ordering::Release);
    }

    /// Tells that the reader has ended.
    pub(crate) fn lower_alive(&self) {
        self.alive.store(false, Ordering::Release);
    }
}

/// `Arc::clone`: another owner of the same flags. Nothing is claimed of it.
#[verifier::external_body]
pub(crate) fn share(flags: &Arc<ReaderFlags>) -> (other: Arc<ReaderFlags>) {
    Arc::clone(flags)
}

} // verus!

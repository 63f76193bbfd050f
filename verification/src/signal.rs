//! The sign by which a reporter tells the spans that share it that it is gone.

use std::sync::atomic::AtomicBool;
use std::sync::atomic::Ordering;
use vstd::prelude::*;

verus! {

/// A flag that any holder may raise and any holder may read, from any thread.
/// What a reader sees depends on what the other holders did before, so no
/// contract speaks of it.
#[derive(Debug)]
pub(crate) struct TeardownSignal {
    raised: AtomicBool,
}

impl TeardownSignal {
    /// A signal that nobody has raised.
    pub(crate) fn new() -> (r: Self) {
        TeardownSignal { raised: AtomicBool::new(false) }
    }

    /// Raises the signal, for good.
    pub(crate) fn raise(&self) {
        self.raised.store(true, Ordering::SeqCst);
    }

    /// Whether the signal was raised, as far as this thread sees it now.
    pub(crate) fn is_raised(&self) -> (r: bool) {
        self.raised.load(Ordering::SeqCst)
    }
}

} // verus!

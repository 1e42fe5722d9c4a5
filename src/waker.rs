use vstd::prelude::*;
use core::sync::atomic::{AtomicBool, Ordering};

verus! {

/// The capability a notification handle dispatches to.
pub trait SimpleWaker {
    fn wake(&self);
}

/// A waker that records a notification in a flag until it is read back.
#[derive(Debug)]
pub struct SingleWake {
    woken: AtomicBool,
}

impl SingleWake {
    /// A waker whose flag starts cleared.
    pub fn new() -> (r: Self)
    {
        SingleWake { woken: AtomicBool::new(false) }
    }

    /// Reads the flag and clears it in one atomic step.
    pub fn read_reset(&self) -> bool {
        self.woken.fetch_and(false, Ordering::Relaxed)
    }
}

impl SimpleWaker for SingleWake {
    fn wake(&self) {
        self.woken.store(true, Ordering::Relaxed)
    }
}

/// A waker whose notification does nothing: progress comes from the driver polling again.
pub struct AlwaysWake {}

impl AlwaysWake {
    pub fn new() -> (r: Self)
    {
        AlwaysWake {}
    }
}

impl SimpleWaker for AlwaysWake {
    fn wake(&self) {
    }
}

} // verus!

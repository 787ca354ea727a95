//! The one-shot shutdown signal.
//!
//! The serving loop waits for a single notification. Any number of
//! authenticated shutdown requests may arrive, but only the first one may
//! deliver the notification; every later one finds the latch spent and does
//! nothing.

use vstd::prelude::*;

verus! {

/// A latch that can be taken exactly once.
pub struct ShutdownLatch {
    armed: bool,
}

impl ShutdownLatch {
    /// Whether the signal is still to be delivered.
    pub closed spec fn is_armed(&self) -> bool {
        self.armed
    }

    /// A fresh latch, armed.
    pub fn new() -> (latch: Self)
        ensures
            latch.is_armed(),
    {
        ShutdownLatch { armed: true }
    }

    /// Reports whether the latch is still armed.
    pub fn armed(&self) -> (b: bool)
        ensures
            b == self.is_armed(),
    {
        self.armed
    }

    /// Takes the latch. Returns `true` for the one caller that must deliver
    /// the signal and `false` for every caller after it; the latch is spent
    /// afterwards either way.
    pub fn take(&mut self) -> (deliver: bool)
        ensures
            deliver == old(self).is_armed(),
            !final(self).is_armed(),
    {
        let was = self.armed;
        self.armed = false;
        was
    }
}

} // verus!

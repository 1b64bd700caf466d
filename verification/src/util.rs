//! What the rest is built on.

use vstd::prelude::*;

verus! {

/// A flag that is set at most once, which releases all who wait for it. Those
/// who come after it was set do not wait at all.
///
/// The value is the one flag, and there are no copies of it. To share it among
/// those who wait is the business of whoever holds it.
#[derive(Debug)]
pub struct SyncEvent {
    flag: bool,
}

impl View for SyncEvent {
    type V = bool;

    closed spec fn view(&self) -> bool {
        self.flag
    }
}

impl SyncEvent {
    /// A flag that is not set.
    pub fn new() -> (r: SyncEvent)
        ensures
            !r@,
    {
        SyncEvent { flag: false }
    }

    /// Whether the flag is set, so that nobody has to wait.
    pub fn is_set(&self) -> (r: bool)
        ensures
            r == self@,
    {
        self.flag
    }

    /// Sets the flag, which nothing clears again. Says whether to release those
    /// who wait: only the first time.
    pub fn signal(&mut self) -> (r: bool)
        ensures
            final(self)@,
            r == !old(self)@,
    {
        let first = !self.flag;
        self.flag = true;
        first
    }
}

} // verus!

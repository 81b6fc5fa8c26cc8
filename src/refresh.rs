//! Scheduling of background polls: at most one acquisition in flight, and an
//! automatic refresh once the refresh interval has passed.
use vstd::prelude::*;

verus! {

/// Whether a poll is in flight.
pub struct RefreshGate {
    in_flight: bool,
}

impl RefreshGate {
    pub closed spec fn busy(&self) -> bool {
        self.in_flight
    }

    /// No poll in flight.
    pub fn new() -> (r: Self)
        ensures
            !r.busy(),
    {
        RefreshGate { in_flight: false }
    }

    pub fn is_refreshing(&self) -> (r: bool)
        ensures
            r == self.busy(),
    {
        self.in_flight
    }

    /// A periodic tick: starts a poll when automatic refresh is on, more than
    /// `interval_secs` have passed since the last poll completed, and none is
    /// in flight. Returns whether the caller is to start one.
    pub fn on_tick(&mut self, auto_refresh: bool, elapsed_secs: u64, interval_secs: u64) -> (start:
        bool)
        ensures
            start == (!old(self).busy() && auto_refresh && elapsed_secs > interval_secs),
            final(self).busy() == (old(self).busy() || start),
    {
        if !self.in_flight && auto_refresh && elapsed_secs > interval_secs {
            self.in_flight = true;
            true
        } else {
            false
        }
    }

    /// An explicit request: starts a poll unless one is in flight. Returns
    /// whether the caller is to start one.
    pub fn request(&mut self) -> (start: bool)
        ensures
            start == !old(self).busy(),
            final(self).busy(),
    {
        if self.in_flight {
            false
        } else {
            self.in_flight = true;
            true
        }
    }

    /// The poll in flight has delivered its result.
    pub fn complete(&mut self)
        ensures
            !final(self).busy(),
    {
        self.in_flight = false;
    }
}

} // verus!

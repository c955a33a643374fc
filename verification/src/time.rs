//! Frame timing from host-supplied clock readings.
//!
//! The host reads its monotonic clock and hands the reading in (in
//! whatever unit it likes — the delta comes back in the same unit).
//! A reading earlier than the previous one yields a zero delta rather
//! than wrapping.

use vstd::prelude::*;

verus! {

/// Remembers the previous clock reading.
#[derive(Debug, Clone, Copy, PartialEq, Eq, Structural)]
pub struct Time {
    pub last: u64,
}

impl Time {
    /// Starts timing from the given clock reading.
    pub fn new(now: u64) -> (r: Self)
        ensures
            r.last == now,
    {
        Time { last: now }
    }

    /// The time elapsed since the previous reading, saturating at zero
    /// if the clock went backwards; the new reading is remembered.
    pub fn tick(&mut self, now: u64) -> (dt: u64)
        ensures
            final(self).last == now,
            dt == (if now >= old(self).last {
                now - old(self).last
            } else {
                0int
            }),
    {
        let dt = if now >= self.last {
            now - self.last
        } else {
            0
        };
        self.last = now;
        dt
    }
}

} // verus!

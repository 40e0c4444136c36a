//! A repeating frame timer, fed the elapsed time once per frame; the host
//! loop acts (for the prototype, greets) whenever a lap finishes.

use vstd::prelude::*;
use crate::player::MAX_FRAME_MS;

verus! {

/// Largest duration a timer may be built with, in milliseconds; a machine
/// bound so that ticking can never overflow.
pub const TIMER_MAX_DURATION_MS: u64 = 1_000_000_000;

/// A cyclic timer: it accumulates elapsed time and reports, once per lap,
/// that its duration has been reached; the excess rolls into the next lap.
#[derive(Clone, Copy, Debug, PartialEq, Eq, Structural)]
pub struct RepeatingTimer {
    /// Length of one lap, in milliseconds.
    pub duration_ms: u64,
    /// Time accumulated within the current lap, in milliseconds.
    pub elapsed_ms: u64,
}

impl RepeatingTimer {
    /// The timer invariant: a positive, bounded duration, and an accumulator
    /// that stays within the current lap.
    pub open spec fn wf(self) -> bool {
        &&& 1 <= self.duration_ms <= TIMER_MAX_DURATION_MS
        &&& self.elapsed_ms < self.duration_ms
    }

    /// A fresh timer that first finishes after `duration_ms` of ticking.
    pub fn new(duration_ms: u64) -> (t: RepeatingTimer)
        requires
            1 <= duration_ms <= TIMER_MAX_DURATION_MS,
        ensures
            t.duration_ms == duration_ms,
            t.elapsed_ms == 0,
            t.wf(),
    {
        RepeatingTimer { duration_ms, elapsed_ms: 0 }
    }

    /// Advance the timer by one frame's elapsed time. Reports whether the
    /// duration was reached during this tick; if so, the time past the
    /// duration rolls into the next lap.
    pub fn tick(&mut self, dt_ms: u64) -> (just_finished: bool)
        requires
            old(self).wf(),
            dt_ms <= MAX_FRAME_MS,
        ensures
            just_finished == (old(self).elapsed_ms + dt_ms >= old(self).duration_ms),
            final(self).elapsed_ms
                == (old(self).elapsed_ms + dt_ms) as int % old(self).duration_ms as int,
            final(self).duration_ms == old(self).duration_ms,
            final(self).wf(),
    {
        let total: u64 = self.elapsed_ms + dt_ms;
        if total >= self.duration_ms {
            self.elapsed_ms = total % self.duration_ms;
            true
        } else {
            proof {
                vstd::arithmetic::div_mod::lemma_small_mod(total as nat, self.duration_ms as nat);
            }
            self.elapsed_ms = total;
            false
        }
    }
}

} // verus!

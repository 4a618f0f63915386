//! Monotonic countdown used by weapons.
//!
//! A timer accumulates elapsed milliseconds (saturating) and is finished once
//! `elapsed >= duration`.  It is non-repeating: ticking a finished timer keeps
//! it finished, and only an explicit `reset` starts a new countdown.
use vstd::prelude::*;

use crate::num::{clamp_u32, sat_add_u32};

verus! {

#[derive(Clone, Copy, PartialEq, Eq, Structural, Debug)]
pub struct Timer {
    /// Countdown length, in milliseconds.
    pub duration: u32,
    /// Milliseconds accumulated since the last reset (saturating).
    pub elapsed: u32,
}

impl Timer {
    /// The timer after `dt` more milliseconds have passed.
    pub open spec fn spec_tick(self, dt: u32) -> Timer {
        Timer { duration: self.duration, elapsed: clamp_u32(self.elapsed + dt) as u32 }
    }

    /// A finished timer has accumulated its whole duration.
    pub open spec fn spec_finished(self) -> bool {
        self.elapsed >= self.duration
    }

    /// The timer restarted from zero.
    pub open spec fn spec_reset(self) -> Timer {
        Timer { duration: self.duration, elapsed: 0 }
    }

    /// A fresh countdown of `duration_ms` milliseconds.
    pub fn from_millis(duration_ms: u32) -> (t: Timer)
        ensures
            t.duration == duration_ms,
            t.elapsed == 0,
    {
        Timer { duration: duration_ms, elapsed: 0 }
    }

    /// Advance the countdown by `dt` milliseconds.  A finished timer stays
    /// finished: elapsed time only grows until a reset.
    pub fn tick(&mut self, dt: u32)
        ensures
            *final(self) == old(self).spec_tick(dt),
            old(self).spec_finished() ==> final(self).spec_finished(),
    {
        self.elapsed = sat_add_u32(self.elapsed, dt);
    }

    /// Whether the whole duration has elapsed since the last reset.
    pub fn finished(&self) -> (r: bool)
        ensures
            r == self.spec_finished(),
    {
        self.elapsed >= self.duration
    }

    /// Start the countdown over.
    pub fn reset(&mut self)
        ensures
            *final(self) == old(self).spec_reset(),
    {
        self.elapsed = 0;
    }
}

} // verus!

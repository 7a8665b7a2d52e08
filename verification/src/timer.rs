//! Countdown primitive used by the shoot cooldown, despawn-after-delay and
//! phase-duration gates.
//!
//! A timer accumulates elapsed milliseconds up to a fixed duration and
//! saturates there; it never goes negative and never overflows. "Just
//! finished" is a one-tick edge signal: it is true only for the tick on
//! which the accumulated time first reached the duration.

use vstd::prelude::*;

verus! {

/// A one-shot countdown over integer milliseconds.
#[derive(Copy, Clone, Debug, PartialEq, Eq, Structural)]
pub struct GameTimer {
    /// Total duration in milliseconds.
    pub duration_ms: u64,
    /// Milliseconds accumulated so far; saturates at `duration_ms`.
    pub elapsed_ms: u64,
    /// Whether the most recent `tick` call moved the timer from unfinished
    /// to finished.
    pub just_finished_edge: bool,
}

impl GameTimer {
    /// A timer is well formed when its accumulated time has not passed its
    /// duration.
    pub open spec fn wf(self) -> bool {
        self.elapsed_ms <= self.duration_ms
    }

    /// A timer is finished once its accumulated time has reached its
    /// duration.
    pub open spec fn spec_finished(self) -> bool {
        self.elapsed_ms >= self.duration_ms
    }

    /// A fresh, unstarted timer of the given duration.
    pub open spec fn spec_new(duration_ms: u64) -> GameTimer {
        GameTimer { duration_ms, elapsed_ms: 0, just_finished_edge: false }
    }

    /// The value of this timer after one `tick` of `delta_ms`.
    pub open spec fn spec_ticked(self, delta_ms: u64) -> GameTimer {
        let elapsed = if self.elapsed_ms + delta_ms >= self.duration_ms {
            self.duration_ms as int
        } else {
            self.elapsed_ms + delta_ms
        };
        GameTimer {
            duration_ms: self.duration_ms,
            elapsed_ms: elapsed as u64,
            just_finished_edge: !self.spec_finished() && elapsed >= self.duration_ms,
        }
    }

    /// The value of this timer after a `reset`.
    pub open spec fn spec_reset(self) -> GameTimer {
        GameTimer { duration_ms: self.duration_ms, elapsed_ms: 0, just_finished_edge: false }
    }

    /// Creates a fresh, unstarted timer.
    pub fn new(duration_ms: u64) -> (t: GameTimer)
        ensures
            t.wf(),
            t == GameTimer::spec_new(duration_ms),
    {
        GameTimer { duration_ms, elapsed_ms: 0, just_finished_edge: false }
    }

    /// Advances the timer by `delta_ms`. The accumulated time saturates at
    /// the duration; the edge flag records whether this very call finished
    /// the timer.
    pub fn tick(&mut self, delta_ms: u64)
        requires
            old(self).wf(),
        ensures
            final(self).wf(),
            *final(self) == old(self).spec_ticked(delta_ms),
    {
        let was_finished = self.elapsed_ms >= self.duration_ms;
        let remaining = self.duration_ms - self.elapsed_ms;
        if delta_ms >= remaining {
            self.elapsed_ms = self.duration_ms;
        } else {
            self.elapsed_ms = self.elapsed_ms + delta_ms;
        }
        self.just_finished_edge = !was_finished && self.elapsed_ms >= self.duration_ms;
    }

    /// Whether the timer has reached its duration.
    pub fn finished(&self) -> (r: bool)
        ensures
            r == self.spec_finished(),
    {
        self.elapsed_ms >= self.duration_ms
    }

    /// Whether the most recent `tick` call finished the timer.
    pub fn just_finished(&self) -> (r: bool)
        ensures
            r == self.just_finished_edge,
    {
        self.just_finished_edge
    }

    /// Restarts the countdown from zero.
    pub fn reset(&mut self)
        ensures
            final(self).wf(),
            *final(self) == old(self).spec_reset(),
    {
        self.elapsed_ms = 0;
        self.just_finished_edge = false;
    }
}

} // verus!

//! Run-wide resources: the player's life pool, the score, and the window
//! and despawn-border layout the simulation runs in.

use vstd::prelude::*;

verus! {

/// Half of the position limit; window extents and border lines stay within
/// this bound so that border arithmetic cannot overflow.
pub const LAYOUT_LIMIT: i64 = 1_000_000_000;

/// The player's hit points for the current run. Stored life never goes
/// negative: damage application clamps at zero.
#[derive(Copy, Clone, Debug, PartialEq, Eq, Structural)]
pub struct Life {
    pub max_life: i32,
    pub current_life: i32,
}

impl Life {
    pub open spec fn wf(self) -> bool {
        0 <= self.current_life <= self.max_life
    }

    /// A full life pool of the given size.
    pub fn new(life: i32) -> (r: Life)
        requires
            life >= 0,
        ensures
            r.wf(),
            r.max_life == life,
            r.current_life == life,
    {
        Life { max_life: life, current_life: life }
    }

    /// Refills the pool to its maximum.
    pub fn reset(&mut self)
        ensures
            final(self).max_life == old(self).max_life,
            final(self).current_life == old(self).max_life,
    {
        self.current_life = self.max_life;
    }
}

/// Refills the player's life at the start of a run.
pub fn reset_life(life: &mut Life)
    ensures
        final(life).max_life == old(life).max_life,
        final(life).current_life == old(life).max_life,
{
    life.reset();
}

/// The running score for the current run.
#[derive(Copy, Clone, Debug, PartialEq, Eq, Structural)]
pub struct Score {
    pub current: i64,
    pub max: i64,
}

/// Window extents in world units, re-read each tick from the layout
/// provider.
#[derive(Copy, Clone, Debug, PartialEq, Eq, Structural)]
pub struct WindowSize {
    pub w: i64,
    pub h: i64,
}

impl WindowSize {
    /// At least one pixel on each axis, and small enough that border
    /// arithmetic cannot overflow.
    pub open spec fn wf(self) -> bool {
        &&& crate::UNITS_PER_PIXEL <= self.w <= LAYOUT_LIMIT
        &&& crate::UNITS_PER_PIXEL <= self.h <= LAYOUT_LIMIT
    }
}

/// The despawn border: window half-extent plus a fixed margin on each
/// side. Entities beyond it are eligible for removal.
#[derive(Copy, Clone, Debug, PartialEq, Eq, Structural)]
pub struct WindowDespawnBorder {
    pub top: i64,
    pub bottom: i64,
    pub left: i64,
    pub right: i64,
}

impl WindowDespawnBorder {
    pub open spec fn wf(self) -> bool {
        &&& -LAYOUT_LIMIT <= self.bottom <= self.top <= LAYOUT_LIMIT
        &&& -LAYOUT_LIMIT <= self.left <= self.right <= LAYOUT_LIMIT
    }
}

} // verus!

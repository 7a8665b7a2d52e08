//! Per-tick notification events. Buffers of these are drained and cleared
//! before the tick ends; none persists across ticks.

use vstd::prelude::*;

use crate::states::GameStates;

verus! {

/// Raised once when damage application brings the player's life to zero.
#[derive(Copy, Clone, Debug, PartialEq, Eq, Structural)]
pub struct PlayerDeadEvent;

/// Raised when the player entity is created at the start of a run.
#[derive(Copy, Clone, Debug, PartialEq, Eq, Structural)]
pub struct PlayerSpawnEvent;

/// Raised on entry into a phase, for out-of-scope UI and logging.
#[derive(Copy, Clone, Debug, PartialEq, Eq, Structural)]
pub struct StateStartEvent(pub GameStates);

/// Raised on exit from a phase, for out-of-scope UI and logging.
#[derive(Copy, Clone, Debug, PartialEq, Eq, Structural)]
pub struct StateEndEvent(pub GameStates);

/// Announces that the given phase has started.
pub fn send_state_start_event(app_state: GameStates, events: &mut Vec<StateStartEvent>)
    ensures
        final(events)@ == old(events)@.push(StateStartEvent(app_state)),
{
    events.push(StateStartEvent(app_state));
}

/// Announces that the given phase has ended.
pub fn send_state_end_event(app_state: GameStates, events: &mut Vec<StateEndEvent>)
    ensures
        final(events)@ == old(events)@.push(StateEndEvent(app_state)),
{
    events.push(StateEndEvent(app_state));
}

} // verus!

//! Phase-transition triggers: each sets the pending next phase that the
//! scheduler applies at the end of the tick.

use vstd::prelude::*;

use crate::states::GameStates;

verus! {

/// Menu leads into a new run.
pub fn intro_start(next_state: &mut GameStates)
    ensures
        *final(next_state) == GameStates::StartGame,
{
    *next_state = GameStates::StartGame;
}

/// The start-of-run delay has elapsed: gameplay begins.
pub fn game_start(next_state: &mut GameStates)
    ensures
        *final(next_state) == GameStates::InGame,
{
    *next_state = GameStates::InGame;
}

/// Gameplay is over; move toward the end of the run.
pub fn start_progression(next_state: &mut GameStates)
    ensures
        *final(next_state) == GameStates::Progression,
{
    *next_state = GameStates::Progression;
}

/// The run ends (the player died).
pub fn game_end(next_state: &mut GameStates)
    ensures
        *final(next_state) == GameStates::EndGame,
{
    *next_state = GameStates::EndGame;
}

/// The end-of-run delay has elapsed: restart with a fresh run.
pub fn game_restart(next_state: &mut GameStates)
    ensures
        *final(next_state) == GameStates::StartGame,
{
    *next_state = GameStates::StartGame;
}

/// Back to the menu.
pub fn menu_start(next_state: &mut GameStates)
    ensures
        *final(next_state) == GameStates::Menu,
{
    *next_state = GameStates::Menu;
}

} // verus!

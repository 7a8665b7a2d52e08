//! The coarse game-phase state machine. Phases form one linear cycle; each
//! phase enables a subset of the simulation systems.

use vstd::prelude::*;

verus! {

/// The game phases, in cycle order.
#[derive(Copy, Clone, Debug, PartialEq, Eq, Hash, Structural)]
pub enum GameStates {
    Menu,
    StartGame,
    InGame,
    Progression,
    EndGame,
}

impl GameStates {
    /// The successor in the fixed phase cycle.
    pub open spec fn spec_next(self) -> GameStates {
        match self {
            GameStates::Menu => GameStates::StartGame,
            GameStates::StartGame => GameStates::InGame,
            GameStates::InGame => GameStates::Progression,
            GameStates::Progression => GameStates::EndGame,
            GameStates::EndGame => GameStates::Menu,
        }
    }

    /// Advances to the next phase of the cycle.
    pub fn next(&self) -> (r: GameStates)
        ensures
            r == self.spec_next(),
    {
        match self {
            GameStates::Menu => GameStates::StartGame,
            GameStates::StartGame => GameStates::InGame,
            GameStates::InGame => GameStates::Progression,
            GameStates::Progression => GameStates::EndGame,
            GameStates::EndGame => GameStates::Menu,
        }
    }
}

/// How a run ended.
#[derive(Copy, Clone, Debug, PartialEq, Eq, Structural)]
pub enum GameResult {
    Win,
    Lose,
}

} // verus!

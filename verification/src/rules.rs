//! The rules of the game that the broker runs.
//!
//! The broker knows nothing of the game itself. It calls the rules when a
//! player acts and once per tick, and stores the states they hand back.

use vstd::prelude::*;
use crate::gamestate::GameState;
use crate::types::{Action, PlayerName};

verus! {

/// The simulation that a broker drives.
///
/// The rules decide the states of a game's players and when the game is
/// over. Who plays is not theirs to change: of the game they hand back, the
/// broker takes the states of the players that the game has.
pub trait GameRules {
    /// The state of a game after `player`, one of its players, has acted.
    fn apply(&self, player: &PlayerName, action: &Action, state: &GameState) -> (next: GameState)
        requires
            state@.has_player(player@),
    ;

    /// The state of a game one tick later, and whether the game is over.
    fn tick(&self, state: &GameState) -> (outcome: (GameState, bool));
}

/// The rules of a game in which nothing ever happens: no action and no tick
/// changes the state, and the game never ends.
#[derive(Debug)]
pub struct NoOpRules {
}

impl GameRules for NoOpRules {
    fn apply(&self, player: &PlayerName, action: &Action, state: &GameState) -> (next: GameState)
        ensures
            next@ == state@,
    {
        state.clone()
    }

    fn tick(&self, state: &GameState) -> (outcome: (GameState, bool))
        ensures
            outcome.0@ == state@,
            !outcome.1,
    {
        (state.clone(), false)
    }
}

} // verus!

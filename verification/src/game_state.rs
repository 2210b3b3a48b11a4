//! The modes of the game's state machine.

use vstd::prelude::*;

verus! {

/// The mode the game is in. Only `Playing` advances the simulation.
#[derive(Clone, Copy, Debug, PartialEq, Eq, Hash, Structural)]
pub enum GameState {
    Menu,
    Playing,
    Paused,
    GameOver,
}

} // verus!

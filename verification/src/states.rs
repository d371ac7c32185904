//! The states of the game: loading, then running.
//!
//! The game goes from loading to running when the last asset has been
//! loaded. The systems that steer the hopper run only in the running state.

use vstd::prelude::*;

pub mod hopper_game_state;
pub mod hopper_loading_state;

pub use hopper_game_state::HopperGameState;
pub use hopper_loading_state::{Completion, HopperLoadingState};

verus! {

/// What a state asks of the game loop.
#[derive(Debug, Clone, Copy, PartialEq, Eq, Structural)]
pub enum Trans {
    /// Go on in this state.
    Stay,
    /// Leave the loading state for the running state.
    Switch,
    /// End the game.
    Quit,
}

} // verus!

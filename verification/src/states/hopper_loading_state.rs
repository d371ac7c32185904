//! The loading state of the game: it waits until every asset is loaded.

use vstd::prelude::*;
use crate::game_events::HopperGameStateEvent;
use crate::states::Trans;

verus! {

/// How far the loading of the assets has come.
#[derive(Debug, Clone, Copy, PartialEq, Eq, Structural)]
pub enum Completion {
    /// Some asset is still being loaded.
    Loading,
    /// Every asset is loaded.
    Complete,
    /// An asset could not be loaded.
    Failed,
}

/// The state that manages the loading of the entities.
#[derive(Debug, Clone, Copy)]
pub struct HopperLoadingState;

impl Default for HopperLoadingState {
    fn default() -> (state: Self) {
        HopperLoadingState
    }
}

impl HopperLoadingState {
    /// Handles one event: tells the game loop to quit when the event asks
    /// for it.
    pub fn handle_event(&mut self, event: HopperGameStateEvent) -> (trans: Trans)
        ensures
            trans == if event.asks_to_quit() {
                Trans::Quit
            } else {
                Trans::Stay
            },
    {
        if event.asks_to_quit() {
            Trans::Quit
        } else {
            Trans::Stay
        }
    }

    /// Decides, once per tick, whether to go on loading: the game ends when
    /// an asset has failed to load, the running state takes over when all
    /// are loaded, and the loading goes on otherwise.
    pub fn update(&mut self, completion: Completion) -> (trans: Trans)
        ensures
            trans == match completion {
                Completion::Failed => Trans::Quit,
                Completion::Complete => Trans::Switch,
                Completion::Loading => Trans::Stay,
            },
    {
        match completion {
            Completion::Failed => Trans::Quit,
            Completion::Complete => Trans::Switch,
            Completion::Loading => Trans::Stay,
        }
    }
}

} // verus!

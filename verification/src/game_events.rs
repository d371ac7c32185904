//! The events that the game state receives.

use vstd::prelude::*;
use crate::engine::ContactEvent;

verus! {

/// The keys that the game tells apart.
#[derive(Debug, Clone, Copy, PartialEq, Eq, Structural)]
pub enum KeyCode {
    A,
    D,
    X,
    Left,
    Right,
    Space,
    Escape,
    /// Any other key.
    Other,
}

/// What the game reads of an event of the window.
#[derive(Debug, Clone, Copy, PartialEq, Eq, Structural)]
pub enum WindowEvent {
    /// The user asked to close the window.
    CloseRequested,
    /// A key went down (`pressed`) or up.
    Key { code: KeyCode, pressed: bool },
    /// Any other event of the window.
    Other,
}

/// The events handled by the game state.
#[derive(Debug, Clone, Copy, PartialEq, Eq)]
pub enum HopperGameStateEvent {
    /// Events sent by the window.
    Window(WindowEvent),
    /// Events sent by the user interface.
    Ui,
    /// Events sent by the input system.
    Input,
    /// Contact events.
    Collision(ContactEvent),
    /// Events specific to this game.
    GameEvent(GameEvent),
}

impl HopperGameStateEvent {
    /// What `asks_to_quit` returns.
    pub open spec fn spec_asks_to_quit(&self) -> bool {
        *self matches HopperGameStateEvent::Window(window_event) && (window_event
            is CloseRequested || window_event == (WindowEvent::Key {
            code: KeyCode::Escape,
            pressed: true,
        }))
    }

    /// Whether the event ends the game: the window is to be closed, or
    /// Escape went down.
    #[verifier::when_used_as_spec(spec_asks_to_quit)]
    pub fn asks_to_quit(&self) -> (quit: bool)
        ensures
            quit == self.spec_asks_to_quit(),
    {
        match self {
            HopperGameStateEvent::Window(WindowEvent::CloseRequested) => true,
            HopperGameStateEvent::Window(WindowEvent::Key { code: KeyCode::Escape, pressed }) => {
                *pressed
            },
            _ => false,
        }
    }
}

/// The events specific to this game.
#[derive(Debug, Clone, Copy, PartialEq, Eq, Structural)]
pub enum GameEvent {
    /// The player has gone out of bounds.
    PlayerOutOfBounds,
}

} // verus!

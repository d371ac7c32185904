//! The running state of the game: what it does with the events it receives.

use vstd::prelude::*;
use crate::components::HopperComponent;
use crate::config::GameConfiguration;
use crate::engine::{Transform, Vector3};
use crate::game_events::{HopperGameStateEvent, KeyCode, WindowEvent};
use crate::states::Trans;

verus! {

/// The key that went down with `event`, if one did.
pub open spec fn key_pressed(event: HopperGameStateEvent) -> Option<KeyCode> {
    match event {
        HopperGameStateEvent::Window(WindowEvent::Key { code, pressed: true }) => Some(code),
        _ => None,
    }
}

/// Whether `code` is a key that asks for a jump.
pub open spec fn is_jump_key(code: KeyCode) -> bool {
    code is X || code is Space
}

/// Whether `code` is a key that asks for a nudge to the left.
pub open spec fn is_left_key(code: KeyCode) -> bool {
    code is A || code is Left
}

/// Whether `code` is a key that asks for a nudge to the right.
pub open spec fn is_right_key(code: KeyCode) -> bool {
    code is D || code is Right
}

/// The hopper after `event`.
///
/// A jump key stores a jump while the hopper can jump; a nudge key stores a
/// nudge to its side while the hopper can be nudged. Every other event, and
/// every event that ends the game, leaves the hopper as it is.
pub open spec fn after_event(
    hopper: HopperComponent,
    event: HopperGameStateEvent,
    config: &GameConfiguration,
) -> HopperComponent {
    if event.asks_to_quit() {
        hopper
    } else {
        match key_pressed(event) {
            Some(code) => {
                if is_jump_key(code) && hopper.can_jump() {
                    hopper.jump_started(config)
                } else if is_left_key(code) && hopper.can_nudge() {
                    hopper.nudge_started(true, config)
                } else if is_right_key(code) && hopper.can_nudge() {
                    hopper.nudge_started(false, config)
                } else {
                    hopper
                }
            },
            None => hopper,
        }
    }
}

/// A transform as it is shown: one at the hidden depth is moved to the
/// visible depth, any other stays.
pub open spec fn shown(transform: Transform, config: &GameConfiguration) -> Transform {
    if transform.translation.z == config.hidden_z_position {
        Transform {
            translation: Vector3 {
                x: transform.translation.x,
                y: transform.translation.y,
                z: config.visible_z_position,
            },
        }
    } else {
        transform
    }
}

/// Every transform as it is shown.
pub open spec fn shown_all(transforms: Seq<Transform>, config: &GameConfiguration) -> Seq<
    Transform,
> {
    Seq::new(transforms.len(), |i: int| shown(transforms[i], config))
}

/// The state that manages the running of the game.
#[derive(Debug, Clone, Copy)]
pub struct HopperGameState;

impl Default for HopperGameState {
    fn default() -> (state: Self) {
        HopperGameState
    }
}

impl HopperGameState {
    /// Handles one event: tells the game loop to quit when the event asks
    /// for it, and otherwise stores the jump or nudge that a key asks for,
    /// if the player's hopper is in a state to take it.
    pub fn handle_event(
        &mut self,
        hopper_component: &mut HopperComponent,
        event: HopperGameStateEvent,
        config: &GameConfiguration,
    ) -> (trans: Trans)
        requires
            config.well_formed(),
        ensures
            trans == if event.asks_to_quit() {
                Trans::Quit
            } else {
                Trans::Stay
            },
            *final(hopper_component) == after_event(*old(hopper_component), event, config),
            old(hopper_component).well_formed() ==> final(hopper_component).well_formed(),
    {
        if let HopperGameStateEvent::Window(window_event) = event {
            match window_event {
                WindowEvent::CloseRequested => {
                    return Trans::Quit;
                },
                WindowEvent::Key { code, pressed } => {
                    if pressed {
                        match code {
                            KeyCode::Escape => {
                                return Trans::Quit;
                            },
                            KeyCode::X | KeyCode::Space => {
                                if hopper_component.can_jump() {
                                    hopper_component.start_jump(config);
                                }
                            },
                            KeyCode::A | KeyCode::Left => {
                                if hopper_component.can_nudge() {
                                    hopper_component.start_nudge(true, config);
                                }
                            },
                            KeyCode::D | KeyCode::Right => {
                                if hopper_component.can_nudge() {
                                    hopper_component.start_nudge(false, config);
                                }
                            },
                            KeyCode::Other => {},
                        }
                    }
                },
                WindowEvent::Other => {},
            }
        }
        Trans::Stay
    }

    /// Brings every hidden sprite into sight, as the game starts.
    pub fn make_sprites_visible(&self, transforms: &mut Vec<Transform>, config: &GameConfiguration)
        ensures
            final(transforms)@ == shown_all(old(transforms)@, config),
    {
        let mut index: usize = 0;
        while index < transforms.len()
            invariant
                transforms@.len() == old(transforms)@.len(),
                index <= transforms@.len(),
                forall|i: int|
                    0 <= i < index ==> #[trigger] transforms@[i] == shown(
                        old(transforms)@[i],
                        config,
                    ),
                forall|i: int|
                    index <= i < transforms@.len() ==> transforms@[i] == old(transforms)@[i],
            decreases transforms@.len() - index,
        {
            let mut transform: Transform = transforms[index];
            if transform.translation.z == config.hidden_z_position {
                transform.translation.z = config.visible_z_position;
                transforms.set(index, transform);
            }
            index = index + 1;
        }
        proof {
            assert(transforms@ =~= shown_all(old(transforms)@, config));
        }
    }
}

} // verus!

//! The override that keeps a landed hopper on its roof.
//!
//! The engine lets a body rebound when it lands. Until a jump is under way,
//! the velocity that the engine has worked out for the next frame is
//! therefore replaced by a small constant downward one.

use vstd::prelude::*;
use crate::components::HopperComponent;
use crate::config::GameConfiguration;
use crate::engine::{Vector2, Velocity2};

verus! {

/// Whether no jump is under way: nothing is left of the stored jump force.
///
/// A stored force is a whole number of thousandths, so a force of less
/// than one step is no force.
pub open spec fn jump_idle(jump_force: i64) -> bool {
    jump_force <= 0
}

/// Whether the next-frame velocity of `hopper` is to be overridden: the
/// hopper bounces or rests, and no jump is under way.
pub open spec fn holds_down(hopper: HopperComponent) -> bool {
    hopper.can_jump() && jump_idle(hopper.jump_force)
}

/// The velocity that holds the hopper down: no sideways speed, the
/// configured pressure downward, no spin.
pub open spec fn resting_velocity(config: &GameConfiguration) -> Velocity2 {
    Velocity2 { linear: Vector2 { x: 0, y: (-config.downward_pressure) as i64 }, angular: 0 }
}

/// The system that keeps the hopper on the roof until a jump is requested.
#[derive(Debug, Clone, Copy)]
pub struct HopperRestSystem;

impl Default for HopperRestSystem {
    fn default() -> (system: Self) {
        HopperRestSystem
    }
}

impl HopperRestSystem {
    /// Overrides the player's next-frame velocity while the hopper bounces
    /// or rests with no jump under way; leaves it as the engine set it
    /// otherwise.
    pub fn run(
        &mut self,
        hopper_component: &HopperComponent,
        next_frame_velocity: &mut Velocity2,
        config: &GameConfiguration,
    )
        requires
            config.well_formed(),
        ensures
            *final(next_frame_velocity) == if holds_down(*hopper_component) {
                resting_velocity(config)
            } else {
                *old(next_frame_velocity)
            },
    {
        if hopper_component.can_jump() && hopper_component.jump_force <= 0 {
            *next_frame_velocity = Velocity2::new(
                Vector2 { x: 0, y: -config.downward_pressure },
                0,
            );
        }
    }
}

} // verus!

//! The watch on the lower boundary of the playing field.

use vstd::prelude::*;
use crate::config::GameConfiguration;
use crate::engine::{ScreenDimensions, Transform};
use crate::game_events::GameEvent;

verus! {

/// Whether a hopper at height `hopper_y` is below the lower boundary.
///
/// The boundary lies half a screen height and the configured margin below
/// the camera: `camera_y - screen_height / 2 - lower_y_boundary`. Both sides
/// are doubled here, so that half a step of an odd screen height counts.
pub open spec fn below_lower_boundary(
    hopper_y: int,
    camera_y: int,
    screen_height: int,
    lower_y_boundary: int,
) -> bool {
    2 * hopper_y < 2 * camera_y - screen_height - 2 * lower_y_boundary
}

/// The system that tells when the hopper has gone out of bounds.
#[derive(Debug, Clone, Copy)]
pub struct HopperBoundarySystem;

impl Default for HopperBoundarySystem {
    fn default() -> (system: Self) {
        HopperBoundarySystem
    }
}

impl HopperBoundarySystem {
    /// Returns the out-of-bounds event when the hopper is below the lower
    /// boundary, and nothing otherwise.
    pub fn run(
        &mut self,
        hopper_transform: &Transform,
        camera_transform: &Transform,
        screen_dimensions: &ScreenDimensions,
        config: &GameConfiguration,
    ) -> (event: Option<GameEvent>)
        ensures
            event == if below_lower_boundary(
                hopper_transform.translation.y as int,
                camera_transform.translation.y as int,
                screen_dimensions.height as int,
                config.hopper_lower_y_boundary as int,
            ) {
                Some(GameEvent::PlayerOutOfBounds)
            } else {
                None
            },
    {
        let hopper_y_position: i128 = hopper_transform.translation.y as i128;
        let camera_y_position: i128 = camera_transform.translation.y as i128;
        let screen_height: i128 = screen_dimensions.height as i128;
        let lower_y_boundary: i128 = config.hopper_lower_y_boundary as i128;
        let doubled_lower_boundary: i128 = 2 * camera_y_position - screen_height - 2
            * lower_y_boundary;
        if 2 * hopper_y_position < doubled_lower_boundary {
            Some(GameEvent::PlayerOutOfBounds)
        } else {
            None
        }
    }
}

} // verus!

//! The records of which there is one per game.

use vstd::prelude::*;
use crate::engine::Entity;

verus! {

/// Keeps track of the main camera entity.
#[derive(Debug, Clone, Copy, PartialEq, Eq, Structural)]
pub struct MainCameraEntityResource {
    pub main_camera_entity: Entity,
}

/// Keeps track of the player entity. It is resolved once, when the level
/// is loaded, and read by the systems from then on.
#[derive(Debug, Clone, Copy, PartialEq, Eq, Structural)]
pub struct PlayerEntityResource {
    pub player_entity: Entity,
}

} // verus!

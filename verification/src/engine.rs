//! Plain values exchanged with the game engine.
//!
//! The engine owns the entities, their poses and the rigid-body simulation.
//! The systems of this crate read and write only a few of the engine's
//! numbers; the types here hold exactly those. All scalars are fixed-point:
//! an `i64` that counts thousandths of a world unit, so `1200` stands for 1.2.

use vstd::prelude::*;

verus! {

/// How many fixed-point steps make up one world unit.
pub const UNIT: i64 = 1000;

/// The identity of an entity: its slot in the world and the generation of that slot.
#[derive(Debug, Clone, Copy, PartialEq, Eq, Structural)]
pub struct Entity {
    pub id: u32,
    pub generation: i32,
}

/// A two-dimensional vector of fixed-point scalars.
#[derive(Debug, Clone, Copy, PartialEq, Eq, Structural)]
pub struct Vector2 {
    pub x: i64,
    pub y: i64,
}

/// A three-dimensional vector of fixed-point scalars.
#[derive(Debug, Clone, Copy, PartialEq, Eq, Structural)]
pub struct Vector3 {
    pub x: i64,
    pub y: i64,
    pub z: i64,
}

/// The velocity of a rigid body in the plane.
#[derive(Debug, Clone, Copy, PartialEq, Eq, Structural)]
pub struct Velocity2 {
    pub linear: Vector2,
    pub angular: i64,
}

/// Where an entity stands in the world.
#[derive(Debug, Clone, Copy, PartialEq, Eq, Structural)]
pub struct Transform {
    pub translation: Vector3,
}

/// The size of the screen.
#[derive(Debug, Clone, Copy, PartialEq, Eq, Structural)]
pub struct ScreenDimensions {
    pub width: i64,
    pub height: i64,
}

/// The part of a collider that the systems steer: whether it takes part in collisions.
#[derive(Debug, Clone, Copy, PartialEq, Eq, Structural)]
pub struct CollisionShape {
    pub enabled: bool,
}

/// A contact between two bodies, as the engine reports it.
#[derive(Debug, Clone, Copy, PartialEq, Eq)]
pub struct ContactEvent {
    pub bodies: (Entity, Entity),
}

impl ContactEvent {
    /// Whether `entity` is one of the two bodies of this contact.
    pub open spec fn names(self, entity: Entity) -> bool {
        self.bodies.0 == entity || self.bodies.1 == entity
    }
}

impl Velocity2 {
    /// A velocity with the given linear part and angular speed.
    pub fn new(linear: Vector2, angular: i64) -> (velocity: Self)
        ensures
            velocity == (Velocity2 { linear, angular }),
    {
        Velocity2 { linear, angular }
    }
}

} // verus!

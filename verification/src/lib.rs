//! The gameplay core of a small rooftop-jumping game: the state machine that
//! governs the hopper's vertical motion, the conversion of jump and nudge
//! requests into bounded per-tick forces, the override that keeps a landed
//! hopper on its roof, and the latch that arms rooftop colliders.
//!
//! Every quantity the physics engine measures (positions, velocities, forces)
//! is held as a fixed-point number: an `i64` counting thousandths of a world
//! unit. See [`engine`] for the plain values exchanged with the engine.

pub mod bundle;
pub mod components;
pub mod config;
pub mod engine;
pub mod game_data;
pub mod game_events;
pub mod resources;
pub mod states;
pub mod systems;

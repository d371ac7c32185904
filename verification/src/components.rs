//! The per-entity records that the systems read and write.

pub mod background_component;
pub mod collision_component;
pub mod hopper_component;
pub mod rooftop_component;

pub use background_component::BackgroundComponent;
pub use collision_component::CollisionComponent;
pub use hopper_component::{HopperComponent, HopperState};
pub use rooftop_component::RooftopComponent;

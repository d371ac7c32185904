//! The systems: the steps that run once per tick on the per-entity records.

pub mod camera_movement_system;
pub mod entity_collision_system;
pub mod hopper_boundary_system;
pub mod hopper_collision_state_system;
pub mod hopper_jump_system;
pub mod hopper_rest_system;
pub mod hopper_soaring_system;
pub mod rooftop_collider_management_system;

pub use camera_movement_system::CameraMovementSystem;
pub use entity_collision_system::EntityCollisionSystem;
pub use hopper_boundary_system::HopperBoundarySystem;
pub use hopper_collision_state_system::HopperCollisionStateSystem;
pub use hopper_jump_system::HopperJumpSystem;
pub use hopper_rest_system::HopperRestSystem;
pub use hopper_soaring_system::HopperSoaringSystem;
pub use rooftop_collider_management_system::RooftopColliderManagementSystem;

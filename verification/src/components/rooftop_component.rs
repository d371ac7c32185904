//! The latch that arms a rooftop's collider.

use vstd::prelude::*;

verus! {

/// Marks an entity as a rooftop.
///
/// A rooftop lets the hopper pass through from below, once; after that the
/// hopper lands on it.
#[derive(Debug, Copy, Clone, PartialEq, Eq, Structural)]
pub struct RooftopComponent {
    /// True if the hopper can collide with (land on) the rooftop.
    pub is_collision_enabled: bool,
}

impl Default for RooftopComponent {
    fn default() -> (component: Self)
        ensures
            !component.is_collision_enabled,
    {
        RooftopComponent { is_collision_enabled: false }
    }
}

impl RooftopComponent {
    /// The same rooftop with its collision set to `enabled`.
    pub fn with_collision_enabled(self, enabled: bool) -> (component: Self)
        ensures
            component.is_collision_enabled == enabled,
    {
        let mut component = self;
        component.is_collision_enabled = enabled;
        component
    }
}

} // verus!

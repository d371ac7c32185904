//! The arming of rooftop colliders.
//!
//! A rooftop can be landed on once the hopper has, at any time, risen
//! above it. Until then the hopper passes through it from below.

use vstd::prelude::*;
use crate::components::RooftopComponent;
use crate::config::GameConfiguration;
use crate::engine::{CollisionShape, Transform};

verus! {

/// Whether the hopper, at height `hopper_y`, has cleared a rooftop at
/// height `rooftop_y` by more than the leeway.
pub open spec fn has_cleared(hopper_y: int, rooftop_y: int, leeway: int) -> bool {
    hopper_y > rooftop_y + leeway
}

/// Whether a rooftop is armed after a tick: it was armed before, or the
/// hopper has cleared it in this tick.
pub open spec fn armed(enabled: bool, hopper_y: int, rooftop_y: int, leeway: int) -> bool {
    enabled || has_cleared(hopper_y, rooftop_y, leeway)
}

/// One rooftop after a tick: the latch is set as `armed` says, the collider
/// follows the latch, and the rooftop stays where it is.
pub open spec fn managed(
    rooftop: (RooftopComponent, Transform, CollisionShape),
    hopper_transform: &Transform,
    config: &GameConfiguration,
) -> (RooftopComponent, Transform, CollisionShape) {
    let enabled = armed(
        rooftop.0.is_collision_enabled,
        hopper_transform.translation.y as int,
        rooftop.1.translation.y as int,
        config.hopper_position_leeway as int,
    );
    (RooftopComponent { is_collision_enabled: enabled }, rooftop.1, CollisionShape { enabled })
}

/// Every rooftop after a tick.
pub open spec fn managed_all(
    rooftops: Seq<(RooftopComponent, Transform, CollisionShape)>,
    hopper_transform: &Transform,
    config: &GameConfiguration,
) -> Seq<(RooftopComponent, Transform, CollisionShape)> {
    Seq::new(rooftops.len(), |i: int| managed(rooftops[i], hopper_transform, config))
}

/// Whether a rooftop is armed after a run of ticks, one for each of
/// `hopper_heights`, the heights at which the ticks find the hopper.
pub open spec fn armed_after(
    enabled: bool,
    hopper_heights: Seq<int>,
    rooftop_y: int,
    leeway: int,
) -> bool
    decreases hopper_heights.len(),
{
    if hopper_heights.len() == 0 {
        enabled
    } else {
        armed(
            armed_after(enabled, hopper_heights.drop_last(), rooftop_y, leeway),
            hopper_heights.last(),
            rooftop_y,
            leeway,
        )
    }
}

/// Arming is a latch: a rooftop that is armed after some ticks is armed
/// after any further ticks, wherever they find the hopper.
pub proof fn lemma_armed_stays_armed(
    enabled: bool,
    hopper_heights: Seq<int>,
    further_heights: Seq<int>,
    rooftop_y: int,
    leeway: int,
)
    requires
        armed_after(enabled, hopper_heights, rooftop_y, leeway),
    ensures
        armed_after(enabled, hopper_heights + further_heights, rooftop_y, leeway),
    decreases further_heights.len(),
{
    if further_heights.len() == 0 {
        assert(hopper_heights + further_heights =~= hopper_heights);
    } else {
        lemma_armed_stays_armed(
            enabled,
            hopper_heights,
            further_heights.drop_last(),
            rooftop_y,
            leeway,
        );
        assert((hopper_heights + further_heights).drop_last() =~= hopper_heights
            + further_heights.drop_last());
    }
}

/// The system that decides whether a rooftop takes part in collisions.
#[derive(Debug, Clone, Copy)]
pub struct RooftopColliderManagementSystem;

impl Default for RooftopColliderManagementSystem {
    fn default() -> (system: Self) {
        RooftopColliderManagementSystem
    }
}

impl RooftopColliderManagementSystem {
    /// Arms every rooftop that the hopper has cleared, keeps every armed
    /// rooftop armed, and hands each latch on to the rooftop's collider.
    /// Each row holds the latch, the place and the collider of one rooftop.
    pub fn run(
        &mut self,
        hopper_transform: &Transform,
        rooftops: &mut Vec<(RooftopComponent, Transform, CollisionShape)>,
        config: &GameConfiguration,
    )
        ensures
            final(rooftops)@ == managed_all(old(rooftops)@, hopper_transform, config),
            forall|i: int|
                0 <= i < old(rooftops)@.len() && old(rooftops)@[i].0.is_collision_enabled
                    ==> (#[trigger] final(rooftops)@[i]).0.is_collision_enabled,
    {
        let hopper_position: i128 = hopper_transform.translation.y as i128;
        let leeway: i128 = config.hopper_position_leeway as i128;
        let mut index: usize = 0;
        while index < rooftops.len()
            invariant
                rooftops@.len() == old(rooftops)@.len(),
                index <= rooftops@.len(),
                hopper_position == hopper_transform.translation.y,
                leeway == config.hopper_position_leeway,
                forall|i: int|
                    0 <= i < index ==> #[trigger] rooftops@[i] == managed(
                        old(rooftops)@[i],
                        hopper_transform,
                        config,
                    ),
                forall|i: int| index <= i < rooftops@.len() ==> rooftops@[i] == old(rooftops)@[i],
            decreases rooftops@.len() - index,
        {
            let (mut rooftop_component, rooftop_transform, mut collision_shape) = rooftops[index];
            if hopper_position > rooftop_transform.translation.y as i128 + leeway {
                rooftop_component.is_collision_enabled = true;
            }
            collision_shape.enabled = rooftop_component.is_collision_enabled;
            rooftops.set(index, (rooftop_component, rooftop_transform, collision_shape));
            index = index + 1;
        }
        proof {
            assert(rooftops@ =~= managed_all(old(rooftops)@, hopper_transform, config));
        }
    }
}

} // verus!

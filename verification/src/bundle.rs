//! One tick of the systems that steer the hopper, in their order.
//!
//! The engine runs first: it integrates the forces of the previous tick,
//! reports the contacts and works out the next-frame velocities. Then the
//! contacts are classified; the hopper's motion state is advanced and the
//! rooftops are armed; the soaring states are refined by the next-frame
//! velocity; and at last the stored forces are handed over and the
//! next-frame velocity of a landed hopper is overridden. The engine then
//! takes up the force and the velocity for the tick that follows.

use vstd::prelude::*;
use crate::components::{CollisionComponent, HopperComponent, RooftopComponent};
use crate::config::GameConfiguration;
use crate::engine::{CollisionShape, ContactEvent, Entity, Transform, Vector2, Velocity2};
use crate::resources::PlayerEntityResource;
use crate::systems::entity_collision_system::{classified, last_contact};
use crate::systems::hopper_collision_state_system::next_hopper_state;
use crate::systems::hopper_jump_system::{drained, submitted_force};
use crate::systems::hopper_rest_system::{holds_down, resting_velocity};
use crate::systems::hopper_soaring_system::refined;
use crate::systems::rooftop_collider_management_system::managed_all;
use crate::systems::{
    EntityCollisionSystem,
    HopperCollisionStateSystem,
    HopperJumpSystem,
    HopperRestSystem,
    HopperSoaringSystem,
    RooftopColliderManagementSystem,
};

verus! {

/// Whether one of the rows of `collision_components` belongs to `entity`.
pub open spec fn has_component(
    collision_components: Seq<(Entity, CollisionComponent)>,
    entity: Entity,
) -> bool {
    exists|i: int| 0 <= i < collision_components.len() && (#[trigger] collision_components[i]).0
        == entity
}

/// The hopper once its motion state has been advanced and then refined by
/// the next-frame velocity, before any stored force is handed over.
pub open spec fn steered(
    hopper: HopperComponent,
    in_collision: bool,
    next_frame_velocity: Velocity2,
    config: &GameConfiguration,
) -> HopperComponent {
    refined(
        HopperComponent {
            hopper_state: next_hopper_state(
                hopper.hopper_state,
                hopper.jump_force,
                in_collision,
                config.debouncing_frame_count,
            ),
            ..hopper
        },
        next_frame_velocity,
        config,
    )
}

/// While a jump is pending the hopper soars after it has been steered, so
/// its next-frame velocity is not overridden; and with no jump pending,
/// handing over the stored forces leaves the jump force as it is. Whether
/// the hopper is held down is therefore the same before the stored forces
/// are handed over and after.
pub proof fn lemma_hold_down_ignores_draining(
    hopper: HopperComponent,
    in_collision: bool,
    next_frame_velocity: Velocity2,
    config: GameConfiguration,
)
    requires
        hopper.well_formed(),
        config.well_formed(),
    ensures
        holds_down(drained(steered(hopper, in_collision, next_frame_velocity, &config), &config))
            == holds_down(steered(hopper, in_collision, next_frame_velocity, &config)),
        hopper.jump_force > 0 ==> !holds_down(
            steered(hopper, in_collision, next_frame_velocity, &config),
        ),
{
}

/// The systems of the game, run together.
#[derive(Debug, Clone, Copy)]
pub struct GameBundle;

impl Default for GameBundle {
    fn default() -> (bundle: Self) {
        GameBundle
    }
}

impl GameBundle {
    /// The index of the first row that belongs to `entity`.
    fn find(
        collision_components: &Vec<(Entity, CollisionComponent)>,
        entity: Entity,
    ) -> (index: usize)
        requires
            has_component(collision_components@, entity),
        ensures
            index < collision_components@.len(),
            collision_components@[index as int].0 == entity,
    {
        let count: usize = collision_components.len();
        let mut index: usize = 0;
        while index < count && collision_components[index].0 != entity
            invariant
                count == collision_components@.len(),
                exists|i: int|
                    index <= i < collision_components@.len() && (
                    #[trigger] collision_components@[i]).0 == entity,
            decreases count - index,
        {
            proof {
                let found = choose|i: int|
                    index <= i < collision_components@.len() && (
                    #[trigger] collision_components@[i]).0 == entity;
                assert(found != index);
            }
            index = index + 1;
        }
        index
    }

    /// Runs one tick for the player.
    ///
    /// `contacts` are the contacts that the engine reported since the last
    /// tick, `next_frame_velocity` is the player's velocity as the engine
    /// worked it out for the next frame, and `hopper_transform` is where
    /// the player stands. The result is the force to add to the engine's
    /// accumulator for the player, if there is one.
    ///
    /// The player must have a row in `collision_components`.
    pub fn run(
        &mut self,
        player: &PlayerEntityResource,
        contacts: &Vec<ContactEvent>,
        collision_components: &mut Vec<(Entity, CollisionComponent)>,
        hopper_component: &mut HopperComponent,
        next_frame_velocity: &mut Velocity2,
        hopper_transform: &Transform,
        rooftops: &mut Vec<(RooftopComponent, Transform, CollisionShape)>,
        config: &GameConfiguration,
    ) -> (force: Option<Vector2>)
        requires
            config.well_formed(),
            old(hopper_component).well_formed(),
            has_component(old(collision_components)@, player.player_entity),
        ensures
            final(collision_components)@ == classified(old(collision_components)@, contacts@),
            final(rooftops)@ == managed_all(old(rooftops)@, hopper_transform, config),
            force == submitted_force(
                steered(
                    *old(hopper_component),
                    last_contact(contacts@, player.player_entity) is Some,
                    *old(next_frame_velocity),
                    config,
                ),
                config,
            ),
            *final(hopper_component) == drained(
                steered(
                    *old(hopper_component),
                    last_contact(contacts@, player.player_entity) is Some,
                    *old(next_frame_velocity),
                    config,
                ),
                config,
            ),
            final(hopper_component).well_formed(),
            *final(next_frame_velocity) == if holds_down(*final(hopper_component)) {
                resting_velocity(config)
            } else {
                *old(next_frame_velocity)
            },
    {
        let mut entity_collision_system = EntityCollisionSystem;
        entity_collision_system.run(collision_components, contacts);
        proof {
            let row = choose|i: int|
                0 <= i < old(collision_components)@.len() && (#[trigger] old(
                    collision_components)@[i]).0 == player.player_entity;
            assert(collision_components@[row].0 == player.player_entity);
        }
        let index: usize = Self::find(collision_components, player.player_entity);
        let collision_component: CollisionComponent = collision_components[index].1;

        let mut hopper_collision_state_system = HopperCollisionStateSystem;
        hopper_collision_state_system.run(&collision_component, hopper_component, config);
        let mut rooftop_collider_management_system = RooftopColliderManagementSystem;
        rooftop_collider_management_system.run(hopper_transform, rooftops, config);

        let hopper_soaring_system = HopperSoaringSystem;
        hopper_soaring_system.refine(next_frame_velocity, hopper_component, config);

        let mut hopper_jump_system = HopperJumpSystem;
        let force: Option<Vector2> = hopper_jump_system.run(hopper_component, config);
        let mut hopper_rest_system = HopperRestSystem;
        hopper_rest_system.run(hopper_component, next_frame_velocity, config);
        force
    }
}

} // verus!

//! The hopper's motion-state machine.
//!
//! The engine gives no way to switch off the rebound of a body that lands,
//! so the landing is debounced here: a hopper that touches a roof counts
//! down a number of ticks before it rests, and one that leaves the roof
//! counts up before it is taken to be in the air again.

use vstd::prelude::*;
use crate::components::{CollisionComponent, HopperComponent, HopperState};
use crate::config::GameConfiguration;

verus! {

/// Whether a stored jump force is still being applied.
///
/// A stored force is a whole number of thousandths, so the smallest force
/// that is more than nothing is one step.
pub open spec fn jump_pending(jump_force: i64) -> bool {
    jump_force > 0
}

/// The state that follows `state` after one tick.
///
/// A pending jump overrides everything. Otherwise, in contact the hopper
/// starts bouncing, counts down and comes to rest; out of contact a soaring
/// hopper keeps its state, a resting one starts to bounce, and a bouncing
/// one counts up until it has been off the roof for more than twice the
/// debounce count.
pub open spec fn next_hopper_state(
    state: HopperState,
    jump_force: i64,
    in_collision: bool,
    debouncing_frame_count: u32,
) -> HopperState {
    if jump_pending(jump_force) {
        HopperState::Rising
    } else if in_collision {
        match state {
            HopperState::Rising | HopperState::Peaking | HopperState::Falling => {
                HopperState::Bouncing(debouncing_frame_count)
            },
            HopperState::Bouncing(frames_left) => {
                if frames_left > 1 {
                    HopperState::Bouncing((frames_left - 1) as u32)
                } else {
                    HopperState::Resting
                }
            },
            HopperState::Resting => HopperState::Resting,
        }
    } else {
        match state {
            HopperState::Rising => HopperState::Rising,
            HopperState::Peaking => HopperState::Peaking,
            HopperState::Falling => HopperState::Falling,
            HopperState::Bouncing(frames_left) => {
                if frames_left > 2 * debouncing_frame_count {
                    HopperState::Rising
                } else {
                    HopperState::Bouncing((frames_left + 1) as u32)
                }
            },
            HopperState::Resting => HopperState::Bouncing(1),
        }
    }
}

/// The state that follows `state` after `ticks` ticks over which the stored
/// jump force and the contact stay as given.
pub open spec fn hopper_state_after(
    state: HopperState,
    jump_force: i64,
    in_collision: bool,
    debouncing_frame_count: u32,
    ticks: nat,
) -> HopperState
    decreases ticks,
{
    if ticks == 0 {
        state
    } else {
        next_hopper_state(
            hopper_state_after(
                state,
                jump_force,
                in_collision,
                debouncing_frame_count,
                (ticks - 1) as nat,
            ),
            jump_force,
            in_collision,
            debouncing_frame_count,
        )
    }
}

/// A bouncing hopper that stays in contact, with no jump pending, counts
/// down by one each tick and never below one: from `Bouncing(frames_left)`
/// it is `Bouncing(frames_left - ticks)` after fewer than `frames_left`
/// ticks, and `Resting` from the tick on at which the count would reach zero.
pub proof fn lemma_bouncing_settles(
    frames_left: u32,
    jump_force: i64,
    debouncing_frame_count: u32,
    ticks: nat,
)
    requires
        !jump_pending(jump_force),
        ticks >= 1,
    ensures
        hopper_state_after(
            HopperState::Bouncing(frames_left),
            jump_force,
            true,
            debouncing_frame_count,
            ticks,
        ) == if ticks < frames_left {
            HopperState::Bouncing((frames_left - ticks) as u32)
        } else {
            HopperState::Resting
        },
    decreases ticks,
{
    if ticks > 1 {
        lemma_bouncing_settles(frames_left, jump_force, debouncing_frame_count, (ticks - 1) as nat);
    } else {
        assert(hopper_state_after(
            HopperState::Bouncing(frames_left),
            jump_force,
            true,
            debouncing_frame_count,
            0,
        ) == HopperState::Bouncing(frames_left));
    }
}

/// A jump request forces the hopper to rise at the next tick, whatever its
/// state and whether or not it is in contact, provided that the configured
/// jump force is more than nothing.
pub proof fn lemma_jump_request_forces_rising(
    hopper: HopperComponent,
    in_collision: bool,
    config: GameConfiguration,
)
    requires
        config.jump_force > 0,
    ensures
        next_hopper_state(
            hopper.jump_started(&config).hopper_state,
            hopper.jump_started(&config).jump_force,
            in_collision,
            config.debouncing_frame_count,
        ) == HopperState::Rising,
{
}

/// The system that debounces a contact between the hopper and a rooftop.
#[derive(Debug, Clone, Copy)]
pub struct HopperCollisionStateSystem;

impl Default for HopperCollisionStateSystem {
    fn default() -> (system: Self) {
        HopperCollisionStateSystem
    }
}

impl HopperCollisionStateSystem {
    /// Advances the player's motion state by one tick, from the player's
    /// contact state and stored jump force. The stored forces stay as they are.
    pub fn run(
        &mut self,
        collision_component: &CollisionComponent,
        hopper_component: &mut HopperComponent,
        config: &GameConfiguration,
    )
        requires
            config.well_formed(),
        ensures
            *final(hopper_component) == (HopperComponent {
                hopper_state: next_hopper_state(
                    old(hopper_component).hopper_state,
                    old(hopper_component).jump_force,
                    collision_component.is_in_collision(),
                    config.debouncing_frame_count,
                ),
                ..*old(hopper_component)
            }),
    {
        let in_collision: bool = collision_component.is_in_collision();
        let jump_force: i64 = hopper_component.jump_force;
        let debouncing_frame_count: u32 = config.debouncing_frame_count;
        hopper_component.hopper_state = if jump_force > 0 {
            HopperState::Rising
        } else if in_collision {
            match hopper_component.hopper_state {
                HopperState::Rising | HopperState::Peaking | HopperState::Falling => {
                    HopperState::Bouncing(debouncing_frame_count)
                },
                HopperState::Bouncing(frames_left) => {
                    if frames_left > 1 {
                        HopperState::Bouncing(frames_left - 1)
                    } else {
                        HopperState::Resting
                    }
                },
                HopperState::Resting => HopperState::Resting,
            }
        } else {
            match hopper_component.hopper_state {
                HopperState::Rising => HopperState::Rising,
                HopperState::Peaking => HopperState::Peaking,
                HopperState::Falling => HopperState::Falling,
                HopperState::Bouncing(frames_left) => {
                    if frames_left > debouncing_frame_count * 2 {
                        HopperState::Rising
                    } else {
                        HopperState::Bouncing(frames_left + 1)
                    }
                },
                HopperState::Resting => HopperState::Bouncing(1),
            }
        };
    }
}

} // verus!

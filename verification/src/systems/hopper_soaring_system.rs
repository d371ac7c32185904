//! The refinement of the soaring states by the hopper's vertical speed.
//!
//! The speed is the one the engine has worked out for the next frame, so
//! this system runs after the engine has done so.

use vstd::prelude::*;
use crate::components::{HopperComponent, HopperState};
use crate::config::GameConfiguration;
use crate::engine::Velocity2;

verus! {

/// The soaring state that goes with an upward speed: rising above the
/// threshold, falling below its negative, peaking in between.
pub open spec fn soaring_state(upward_velocity: int, peaking_threshold: int) -> HopperState {
    if upward_velocity > peaking_threshold {
        HopperState::Rising
    } else if upward_velocity < -peaking_threshold {
        HopperState::Falling
    } else {
        HopperState::Peaking
    }
}

/// The state of a hopper after refinement: a soaring state follows the
/// speed, any other state stays.
pub open spec fn refined_state(
    state: HopperState,
    upward_velocity: int,
    peaking_threshold: int,
) -> HopperState {
    if state.is_soaring() {
        soaring_state(upward_velocity, peaking_threshold)
    } else {
        state
    }
}

/// A hopper after refinement by its next-frame velocity. Only the state changes.
pub open spec fn refined(
    hopper: HopperComponent,
    velocity: Velocity2,
    config: &GameConfiguration,
) -> HopperComponent {
    HopperComponent {
        hopper_state: refined_state(
            hopper.hopper_state,
            velocity.linear.y as int,
            config.peaking_threshold as int,
        ),
        ..hopper
    }
}

/// Every row after refinement: the velocity as it was, the hopper refined by it.
pub open spec fn refined_all(
    hoppers: Seq<(Velocity2, HopperComponent)>,
    config: &GameConfiguration,
) -> Seq<(Velocity2, HopperComponent)> {
    Seq::new(
        hoppers.len(),
        |i: int| (hoppers[i].0, refined(hoppers[i].1, hoppers[i].0, config)),
    )
}

/// Refinement moves a hopper only among the soaring states: a soaring
/// hopper still soars afterwards, and a bouncing or resting hopper is left
/// exactly as it was.
pub proof fn lemma_refinement_keeps_kind(
    state: HopperState,
    upward_velocity: int,
    peaking_threshold: int,
)
    ensures
        refined_state(state, upward_velocity, peaking_threshold).is_soaring() == state.is_soaring(),
        !state.is_soaring() ==> refined_state(state, upward_velocity, peaking_threshold) == state,
{
}

/// The system that keeps the three soaring states in step with the
/// hopper's velocity.
#[derive(Debug, Clone, Copy)]
pub struct HopperSoaringSystem;

impl Default for HopperSoaringSystem {
    fn default() -> (system: Self) {
        HopperSoaringSystem
    }
}

impl HopperSoaringSystem {
    /// Refines one hopper by its next-frame velocity.
    pub fn refine(
        &self,
        next_frame_velocity: &Velocity2,
        hopper_component: &mut HopperComponent,
        config: &GameConfiguration,
    )
        ensures
            *final(hopper_component) == refined(
                *old(hopper_component),
                *next_frame_velocity,
                config,
            ),
            final(hopper_component).is_soaring() == old(hopper_component).is_soaring(),
    {
        if hopper_component.is_soaring() {
            let upward_velocity: i128 = next_frame_velocity.linear.y as i128;
            let peaking_threshold: i128 = config.peaking_threshold as i128;
            hopper_component.hopper_state = if upward_velocity > peaking_threshold {
                HopperState::Rising
            } else if upward_velocity < -peaking_threshold {
                HopperState::Falling
            } else {
                HopperState::Peaking
            };
        }
    }

    /// Refines every hopper that has a next-frame velocity. Each row holds
    /// the velocity and the hopper of one entity.
    pub fn run(
        &mut self,
        hoppers: &mut Vec<(Velocity2, HopperComponent)>,
        config: &GameConfiguration,
    )
        ensures
            final(hoppers)@ == refined_all(old(hoppers)@, config),
    {
        let mut index: usize = 0;
        while index < hoppers.len()
            invariant
                hoppers@.len() == old(hoppers)@.len(),
                index <= hoppers@.len(),
                forall|i: int|
                    0 <= i < index ==> #[trigger] hoppers@[i] == (
                        old(hoppers)@[i].0,
                        refined(old(hoppers)@[i].1, old(hoppers)@[i].0, config),
                    ),
                forall|i: int| index <= i < hoppers@.len() ==> hoppers@[i] == old(hoppers)@[i],
            decreases hoppers@.len() - index,
        {
            let (next_frame_velocity, mut hopper_component) = hoppers[index];
            self.refine(&next_frame_velocity, &mut hopper_component, config);
            hoppers.set(index, (next_frame_velocity, hopper_component));
            index = index + 1;
        }
        proof {
            assert(hoppers@ =~= refined_all(old(hoppers)@, config));
        }
    }
}

} // verus!

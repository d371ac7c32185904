//! The conversion of stored jump and nudge requests into per-tick forces.
//!
//! One request is spread over several ticks: each tick hands the engine at
//! most a configured share of what is stored and takes that share off the
//! store. This smooths the force and spares the engine's integrator a
//! single large impulse.

use vstd::prelude::*;
use crate::components::HopperComponent;
use crate::config::GameConfiguration;
use crate::engine::Vector2;

verus! {

/// The share of a stored jump force that one tick hands over: all of it,
/// or the cap if there is more.
pub open spec fn jump_contribution(stored: int, cap: int) -> int {
    if stored >= cap {
        cap
    } else {
        stored
    }
}

/// The share of a stored nudge force that one tick hands over: the stored
/// force, held between `-cap` and `cap`.
pub open spec fn nudge_contribution(stored: int, cap: int) -> int {
    if stored >= cap {
        cap
    } else if stored <= -cap {
        -cap
    } else {
        stored
    }
}

/// The force that one tick submits for `hopper`, if it submits one: the
/// nudge share along x and the jump share along y.
pub open spec fn submitted_force(hopper: HopperComponent, config: &GameConfiguration) -> Option<
    Vector2,
> {
    if hopper.jump_force > 0 || hopper.nudge_force != 0 {
        Some(
            Vector2 {
                x: nudge_contribution(
                    hopper.nudge_force as int,
                    config.max_nudge_force_per_frame as int,
                ) as i64,
                y: jump_contribution(
                    hopper.jump_force as int,
                    config.max_jump_force_per_frame as int,
                ) as i64,
            },
        )
    } else {
        None
    }
}

/// The hopper after one tick has taken its shares off the stored forces.
pub open spec fn drained(hopper: HopperComponent, config: &GameConfiguration) -> HopperComponent {
    HopperComponent {
        hopper_state: hopper.hopper_state,
        nudge_force: (hopper.nudge_force - nudge_contribution(
            hopper.nudge_force as int,
            config.max_nudge_force_per_frame as int,
        )) as i64,
        jump_force: (hopper.jump_force - jump_contribution(
            hopper.jump_force as int,
            config.max_jump_force_per_frame as int,
        )) as i64,
    }
}

/// The hopper after `ticks` ticks of draining with no further request.
pub open spec fn drained_for(
    hopper: HopperComponent,
    config: &GameConfiguration,
    ticks: nat,
) -> HopperComponent
    decreases ticks,
{
    if ticks == 0 {
        hopper
    } else {
        drained(drained_for(hopper, config, (ticks - 1) as nat), config)
    }
}

/// The number of ticks that empty a stored jump force: the force divided
/// by the cap, rounded up.
pub open spec fn ticks_to_drain(stored: int, cap: int) -> int {
    (stored + cap - 1) / cap
}

/// With no further request, the stored jump force never grows and never
/// goes below nothing: after `ticks` ticks it holds what was stored less
/// `ticks` times the cap, or nothing if that is less than nothing. With a
/// cap of more than nothing it is therefore empty after `ticks_to_drain`
/// ticks, and stays so.
pub proof fn lemma_jump_force_drains(
    hopper: HopperComponent,
    config: GameConfiguration,
    ticks: nat,
)
    requires
        hopper.well_formed(),
        config.well_formed(),
    ensures
        drained_for(hopper, &config, ticks).well_formed(),
        drained_for(hopper, &config, ticks + 1).jump_force <= drained_for(
            hopper,
            &config,
            ticks,
        ).jump_force <= hopper.jump_force,
        drained_for(hopper, &config, ticks).jump_force == if hopper.jump_force >= ticks
            * config.max_jump_force_per_frame {
            hopper.jump_force - ticks * config.max_jump_force_per_frame
        } else {
            0
        },
        config.max_jump_force_per_frame > 0 && ticks >= ticks_to_drain(
            hopper.jump_force as int,
            config.max_jump_force_per_frame as int,
        ) ==> drained_for(hopper, &config, ticks).jump_force == 0,
    decreases ticks,
{
    let cap = config.max_jump_force_per_frame as int;
    let stored = hopper.jump_force as int;
    if ticks > 0 {
        lemma_jump_force_drains(hopper, config, (ticks - 1) as nat);
        assert(ticks * cap == (ticks - 1) * cap + cap) by (nonlinear_arith);
    } else {
        assert(ticks * cap == 0) by (nonlinear_arith)
            requires
                ticks == 0,
        ;
    }
    assert((ticks + 1) * cap == ticks * cap + cap) by (nonlinear_arith);
    assert(ticks * cap >= 0) by (nonlinear_arith)
        requires
            ticks >= 0,
            cap >= 0,
    ;
    if cap > 0 && ticks >= ticks_to_drain(stored, cap) {
        assert(ticks * cap >= stored) by (nonlinear_arith)
            requires
                cap > 0,
                stored >= 0,
                ticks >= (stored + cap - 1) / cap,
        ;
    }
}

/// The system that turns the hopper's stored forces into forces for the
/// engine's accumulator.
#[derive(Debug, Clone, Copy)]
pub struct HopperJumpSystem;

impl Default for HopperJumpSystem {
    fn default() -> (system: Self) {
        HopperJumpSystem
    }
}

impl HopperJumpSystem {
    /// Takes this tick's shares off the player's stored forces and returns
    /// the force to add to the engine's accumulator, or `None` when nothing
    /// is stored.
    pub fn run(
        &mut self,
        hopper_component: &mut HopperComponent,
        config: &GameConfiguration,
    ) -> (force: Option<Vector2>)
        requires
            config.well_formed(),
            old(hopper_component).well_formed(),
        ensures
            force == submitted_force(*old(hopper_component), config),
            *final(hopper_component) == drained(*old(hopper_component), config),
            final(hopper_component).well_formed(),
            final(hopper_component).jump_force <= old(hopper_component).jump_force,
    {
        let max_jump_force_per_frame: i64 = config.max_jump_force_per_frame;
        let max_nudge_force_per_frame: i64 = config.max_nudge_force_per_frame;
        if hopper_component.jump_force > 0 || hopper_component.nudge_force != 0 {
            let jump_force: i64 = if hopper_component.jump_force >= max_jump_force_per_frame {
                max_jump_force_per_frame
            } else {
                hopper_component.jump_force
            };
            let nudge_force: i64 = if hopper_component.nudge_force >= max_nudge_force_per_frame {
                max_nudge_force_per_frame
            } else if hopper_component.nudge_force <= -max_nudge_force_per_frame {
                -max_nudge_force_per_frame
            } else {
                hopper_component.nudge_force
            };
            hopper_component.jump_force = hopper_component.jump_force - jump_force;
            hopper_component.nudge_force = hopper_component.nudge_force - nudge_force;
            Some(Vector2 { x: nudge_force, y: jump_force })
        } else {
            None
        }
    }
}

} // verus!

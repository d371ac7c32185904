//! The hopper: its motion state and the forces stored for it.

use vstd::prelude::*;
use crate::config::GameConfiguration;

verus! {

/// The possible motion states of the hopper.
#[derive(Debug, Copy, Clone, Eq, PartialEq, Structural)]
pub enum HopperState {
    /// The hopper has jumped and is rising.
    Rising,
    /// The hopper has slowed down and is about to fall.
    Peaking,
    /// The hopper is falling.
    Falling,
    /// The hopper touched a roof but has not settled on it.
    /// The value is the debounce count: it runs down while the hopper stays
    /// in contact and up while the hopper is off the roof.
    Bouncing(u32),
    /// The hopper rests on a roof.
    Resting,
}

impl Default for HopperState {
    fn default() -> (state: Self)
        ensures
            state == HopperState::Falling,
    {
        HopperState::Falling
    }
}

impl HopperState {
    /// What `is_soaring` returns.
    pub open spec fn spec_is_soaring(&self) -> bool {
        *self is Rising || *self is Peaking || *self is Falling
    }

    /// What `can_jump` returns.
    pub open spec fn spec_can_jump(&self) -> bool {
        *self is Bouncing || *self is Resting
    }

    /// What `can_nudge` returns.
    pub open spec fn spec_can_nudge(&self) -> bool {
        *self is Rising
    }

    /// Whether the hopper is in the air, neither bouncing nor resting on a roof.
    #[verifier::when_used_as_spec(spec_is_soaring)]
    pub fn is_soaring(&self) -> (soaring: bool)
        ensures
            soaring == (*self is Rising || *self is Peaking || *self is Falling),
    {
        match self {
            Self::Rising => true,
            Self::Peaking => true,
            Self::Falling => true,
            _ => false,
        }
    }

    /// Whether the hopper is in a state to answer a jump request.
    #[verifier::when_used_as_spec(spec_can_jump)]
    pub fn can_jump(&self) -> (able: bool)
        ensures
            able == (*self is Bouncing || *self is Resting),
    {
        match self {
            Self::Bouncing(_) => true,
            Self::Resting => true,
            _ => false,
        }
    }

    /// Whether the hopper is in a state to answer a nudge to the left or right.
    #[verifier::when_used_as_spec(spec_can_nudge)]
    pub fn can_nudge(&self) -> (able: bool)
        ensures
            able == (*self is Rising),
    {
        match self {
            Self::Rising => true,
            _ => false,
        }
    }
}

/// A hopper is in exactly one of the five motion states: as many of them
/// hold of it as `1`. It follows that it either soars or can jump, never both.
pub proof fn lemma_exactly_one_state(state: HopperState)
    ensures
        (if state is Rising { 1int } else { 0 }) + (if state is Peaking { 1int } else { 0 }) + (
        if state is Falling { 1int } else { 0 }) + (if state is Bouncing { 1int } else { 0 }) + (
        if state is Resting { 1int } else { 0 }) == 1,
        state.is_soaring() != state.can_jump(),
{
}

/// The hopper's state and the forces that are still to be handed to the engine.
#[derive(Debug, Copy, Clone, PartialEq, Eq, Structural)]
pub struct HopperComponent {
    /// The current motion state.
    pub hopper_state: HopperState,
    /// The nudge force still stored; negative = to the left.
    pub nudge_force: i64,
    /// The jump force still stored.
    pub jump_force: i64,
}

impl Default for HopperComponent {
    fn default() -> (component: Self)
        ensures
            component == (HopperComponent {
                hopper_state: HopperState::Falling,
                nudge_force: 0,
                jump_force: 0,
            }),
    {
        HopperComponent { hopper_state: HopperState::Falling, nudge_force: 0, jump_force: 0 }
    }
}

impl HopperComponent {
    /// The invariant of the stored forces: the jump force is never negative.
    pub open spec fn well_formed(&self) -> bool {
        self.jump_force >= 0
    }

    /// The component once a jump request has been stored.
    pub open spec fn jump_started(self, config: &GameConfiguration) -> Self {
        HopperComponent { jump_force: config.jump_force, ..self }
    }

    /// The component once a nudge request to the given side has been stored.
    pub open spec fn nudge_started(self, move_left: bool, config: &GameConfiguration) -> Self {
        let nudge_force: int = if move_left {
            -config.sideways_force
        } else {
            config.sideways_force as int
        };
        HopperComponent { nudge_force: nudge_force as i64, ..self }
    }

    /// What `is_soaring` returns.
    pub open spec fn spec_is_soaring(&self) -> bool {
        self.hopper_state.is_soaring()
    }

    /// What `can_jump` returns.
    pub open spec fn spec_can_jump(&self) -> bool {
        self.hopper_state.can_jump()
    }

    /// What `can_nudge` returns.
    pub open spec fn spec_can_nudge(&self) -> bool {
        self.hopper_state.can_nudge()
    }

    /// Tests `well_formed` at run time.
    pub fn is_well_formed(&self) -> (valid: bool)
        ensures
            valid == self.well_formed(),
    {
        self.jump_force >= 0
    }

    /// Whether the hopper is in the air, neither bouncing nor resting on a roof.
    #[verifier::when_used_as_spec(spec_is_soaring)]
    pub fn is_soaring(&self) -> (soaring: bool)
        ensures
            soaring == self.hopper_state.is_soaring(),
    {
        self.hopper_state.is_soaring()
    }

    /// Whether the hopper is in a state to answer a jump request.
    #[verifier::when_used_as_spec(spec_can_jump)]
    pub fn can_jump(&self) -> (able: bool)
        ensures
            able == self.hopper_state.can_jump(),
    {
        self.hopper_state.can_jump()
    }

    /// Whether the hopper is in a state to answer a nudge to the left or right.
    #[verifier::when_used_as_spec(spec_can_nudge)]
    pub fn can_nudge(&self) -> (able: bool)
        ensures
            able == self.hopper_state.can_nudge(),
    {
        self.hopper_state.can_nudge()
    }

    /// Stores the configured jump force, to be handed to the engine over the
    /// coming ticks.
    pub fn start_jump(&mut self, config: &GameConfiguration)
        requires
            config.well_formed(),
        ensures
            *final(self) == old(self).jump_started(config),
            final(self).well_formed(),
    {
        self.jump_force = config.jump_force;
    }

    /// Stores the configured sideways force, pointing left or right.
    pub fn start_nudge(&mut self, move_left: bool, config: &GameConfiguration)
        requires
            config.well_formed(),
        ensures
            *final(self) == old(self).nudge_started(move_left, config),
    {
        self.nudge_force = if move_left {
            -config.sideways_force
        } else {
            config.sideways_force
        };
    }
}

} // verus!

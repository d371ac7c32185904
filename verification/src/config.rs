//! The values that tune the game.
//!
//! A configuration is built once, before the first tick, and handed by
//! reference to every system that needs it. Scalars are fixed-point
//! thousandths, as everywhere in this crate.

use vstd::prelude::*;

verus! {

/// The values that control the game mechanics.
#[derive(Debug, Clone)]
pub struct GameConfiguration {
    /// The acceleration of gravity, negative for downward.
    pub gravity_acceleration: i64,
    /// The z position of the camera.
    pub camera_z_position: i64,
    /// The z position of sprites that are kept out of sight, behind the camera.
    pub hidden_z_position: i64,
    /// The z position of sprites in sight, in front of the camera.
    pub visible_z_position: i64,
    /// The x position of the background, as a share of the screen width.
    pub background_rel_x_position: i64,
    /// The y position of the background, as a share of the screen height.
    pub background_rel_y_position: i64,
    /// The z position of the background, behind the visible sprites.
    pub background_z_position: i64,
    /// The scale of the background image.
    pub background_scale: i64,
    /// The name of the hopper's sprite.
    pub hopper_sprite_name: String,
    /// The width of the hopper's collision rectangle.
    pub hopper_collision_rectangle_width: i64,
    /// The height of the hopper's collision rectangle.
    pub hopper_collision_rectangle_height: i64,
    /// The name of the rooftop sprite.
    pub rooftop_sprite_name: String,
    /// The width of a rooftop's collision rectangle.
    pub rooftop_collision_rectangle_width: i64,
    /// The height of a rooftop's collision rectangle.
    pub rooftop_collision_rectangle_height: i64,
    /// The x offset of a rooftop's collision rectangle from its sprite.
    pub rooftop_collision_rectangle_offset_x: i64,
    /// The y offset of a rooftop's collision rectangle from its sprite.
    pub rooftop_collision_rectangle_offset_y: i64,
    /// The force stored by one jump request.
    pub jump_force: i64,
    /// The magnitude of the force stored by one nudge request.
    pub sideways_force: i64,
    /// How far below the bottom of the screen the hopper goes out of bounds.
    pub hopper_lower_y_boundary: i64,
    /// The number of ticks over which a landing is debounced.
    pub debouncing_frame_count: u32,
    /// The most jump force handed to the engine in one tick.
    pub max_jump_force_per_frame: i64,
    /// The most nudge force, to either side, handed to the engine in one tick.
    pub max_nudge_force_per_frame: i64,
    /// The downward speed that keeps a landed hopper on its roof.
    pub downward_pressure: i64,
    /// The vertical speed below which a soaring hopper counts as peaking.
    pub peaking_threshold: i64,
    /// How far above a rooftop the hopper must rise before that rooftop is armed.
    pub hopper_position_leeway: i64,
}

/// The default of `gravity_acceleration`: -98.
pub const GRAVITY_ACCELERATION: i64 = -98_000;

/// The default of `camera_z_position`: 1.
pub const CAMERA_Z_POSITION: i64 = 1_000;

/// The default of `hidden_z_position`: 1000.
pub const HIDDEN_Z_POSITION: i64 = 1_000_000;

/// The default of `visible_z_position`: 0.
pub const VISIBLE_Z_POSITION: i64 = 0;

/// The default of `background_rel_x_position`: 0.
pub const BACKGROUND_REL_X_POSITION: i64 = 0;

/// The default of `background_rel_y_position`: 0.5.
pub const BACKGROUND_REL_Y_POSITION: i64 = 500;

/// The default of `background_z_position`: -1.
pub const BACKGROUND_Z_POSITION: i64 = -1_000;

/// The default of `background_scale`: 3.
pub const BACKGROUND_SCALE: i64 = 3_000;

/// The default of `hopper_sprite_name`.
pub const HOPPER_SPRITE_NAME: &'static str = "Character Cat Girl";

/// The default of `hopper_collision_rectangle_width`: 34.
pub const HOPPER_COLLISION_RECTANGLE_WIDTH: i64 = 34_000;

/// The default of `hopper_collision_rectangle_height`: 85.5.
pub const HOPPER_COLLISION_RECTANGLE_HEIGHT: i64 = 85_500;

/// The default of `rooftop_sprite_name`.
pub const ROOFTOP_SPRITE_NAME: &'static str = "Roof North";

/// The default of `rooftop_collision_rectangle_width`: 101.
pub const ROOFTOP_COLLISION_RECTANGLE_WIDTH: i64 = 101_000;

/// The default of `rooftop_collision_rectangle_height`: 81.
pub const ROOFTOP_COLLISION_RECTANGLE_HEIGHT: i64 = 81_000;

/// The default of `rooftop_collision_rectangle_offset_x`: 0.
pub const ROOFTOP_COLLISION_RECTANGLE_OFFSET_X: i64 = 0;

/// The default of `rooftop_collision_rectangle_offset_y`: -22.5.
pub const ROOFTOP_COLLISION_RECTANGLE_OFFSET_Y: i64 = -22_500;

/// The default of `jump_force`: 16800.
pub const JUMP_FORCE: i64 = 16_800_000;

/// The default of `sideways_force`: 1100.
pub const SIDEWAYS_FORCE: i64 = 1_100_000;

/// The default of `hopper_lower_y_boundary`: -10.
pub const HOPPER_LOWER_Y_BOUNDARY: i64 = -10_000;

/// The default of `debouncing_frame_count`: 5 ticks.
pub const DEBOUNCING_FRAME_COUNT: u32 = 5;

/// The default of `max_jump_force_per_frame`: 4000.
pub const MAX_JUMP_FORCE_PER_FRAME: i64 = 4_000_000;

/// The default of `max_nudge_force_per_frame`: 400.
pub const MAX_NUDGE_FORCE_PER_FRAME: i64 = 400_000;

/// The default of `downward_pressure`: 4.
pub const DOWNWARD_PRESSURE: i64 = 4_000;

/// The default of `peaking_threshold`: 1.2.
pub const PEAKING_THRESHOLD: i64 = 1_200;

/// The default of `hopper_position_leeway`: 64.
pub const HOPPER_POSITION_LEEWAY: i64 = 64_000;

/// The greatest debounce count that a well-formed configuration holds:
/// twice the count is still a `u32`, with room to count one tick further.
pub const MAX_DEBOUNCING_FRAME_COUNT: u32 = 0x7fff_ffff;

/// The default of `gravity_acceleration`.
pub fn default_gravity_acceleration() -> (value: i64)
    ensures
        value == GRAVITY_ACCELERATION,
{
    GRAVITY_ACCELERATION
}

/// The default of `camera_z_position`.
pub fn default_camera_z_position() -> (value: i64)
    ensures
        value == CAMERA_Z_POSITION,
{
    CAMERA_Z_POSITION
}

/// The default of `hidden_z_position`.
pub fn default_hidden_z_position() -> (value: i64)
    ensures
        value == HIDDEN_Z_POSITION,
{
    HIDDEN_Z_POSITION
}

/// The default of `visible_z_position`.
pub fn default_visible_z_position() -> (value: i64)
    ensures
        value == VISIBLE_Z_POSITION,
{
    VISIBLE_Z_POSITION
}

/// The default of `background_rel_x_position`.
pub fn default_background_rel_x_position() -> (value: i64)
    ensures
        value == BACKGROUND_REL_X_POSITION,
{
    BACKGROUND_REL_X_POSITION
}

/// The default of `background_rel_y_position`.
pub fn default_background_rel_y_position() -> (value: i64)
    ensures
        value == BACKGROUND_REL_Y_POSITION,
{
    BACKGROUND_REL_Y_POSITION
}

/// The default of `background_z_position`.
pub fn default_background_z_position() -> (value: i64)
    ensures
        value == BACKGROUND_Z_POSITION,
{
    BACKGROUND_Z_POSITION
}

/// The default of `background_scale`.
pub fn default_background_scale() -> (value: i64)
    ensures
        value == BACKGROUND_SCALE,
{
    BACKGROUND_SCALE
}

/// The default of `hopper_sprite_name`.
pub fn default_hopper_sprite_name() -> (value: String)
    ensures
        value@ == HOPPER_SPRITE_NAME@,
{
    HOPPER_SPRITE_NAME.to_owned()
}

/// The default of `hopper_collision_rectangle_width`.
pub fn default_hopper_collision_rectangle_width() -> (value: i64)
    ensures
        value == HOPPER_COLLISION_RECTANGLE_WIDTH,
{
    HOPPER_COLLISION_RECTANGLE_WIDTH
}

/// The default of `hopper_collision_rectangle_height`.
pub fn default_hopper_collision_rectangle_height() -> (value: i64)
    ensures
        value == HOPPER_COLLISION_RECTANGLE_HEIGHT,
{
    HOPPER_COLLISION_RECTANGLE_HEIGHT
}

/// The default of `rooftop_sprite_name`.
pub fn default_rooftop_sprite_name() -> (value: String)
    ensures
        value@ == ROOFTOP_SPRITE_NAME@,
{
    ROOFTOP_SPRITE_NAME.to_owned()
}

/// The default of `rooftop_collision_rectangle_width`.
pub fn default_rooftop_collision_rectangle_width() -> (value: i64)
    ensures
        value == ROOFTOP_COLLISION_RECTANGLE_WIDTH,
{
    ROOFTOP_COLLISION_RECTANGLE_WIDTH
}

/// The default of `rooftop_collision_rectangle_height`.
pub fn default_rooftop_collision_rectangle_height() -> (value: i64)
    ensures
        value == ROOFTOP_COLLISION_RECTANGLE_HEIGHT,
{
    ROOFTOP_COLLISION_RECTANGLE_HEIGHT
}

/// The default of `rooftop_collision_rectangle_offset_x`.
pub fn default_rooftop_collision_rectangle_offset_x() -> (value: i64)
    ensures
        value == ROOFTOP_COLLISION_RECTANGLE_OFFSET_X,
{
    ROOFTOP_COLLISION_RECTANGLE_OFFSET_X
}

/// The default of `rooftop_collision_rectangle_offset_y`.
pub fn default_rooftop_collision_rectangle_offset_y() -> (value: i64)
    ensures
        value == ROOFTOP_COLLISION_RECTANGLE_OFFSET_Y,
{
    ROOFTOP_COLLISION_RECTANGLE_OFFSET_Y
}

/// The default of `jump_force`.
pub fn default_jump_force() -> (value: i64)
    ensures
        value == JUMP_FORCE,
{
    JUMP_FORCE
}

/// The default of `sideways_force`.
pub fn default_sideways_force() -> (value: i64)
    ensures
        value == SIDEWAYS_FORCE,
{
    SIDEWAYS_FORCE
}

/// The default of `hopper_lower_y_boundary`.
pub fn default_hopper_lower_y_boundary() -> (value: i64)
    ensures
        value == HOPPER_LOWER_Y_BOUNDARY,
{
    HOPPER_LOWER_Y_BOUNDARY
}

/// The default of `debouncing_frame_count`.
pub fn default_debouncing_frame_count() -> (value: u32)
    ensures
        value == DEBOUNCING_FRAME_COUNT,
{
    DEBOUNCING_FRAME_COUNT
}

/// The default of `max_jump_force_per_frame`.
pub fn default_max_jump_force_per_frame() -> (value: i64)
    ensures
        value == MAX_JUMP_FORCE_PER_FRAME,
{
    MAX_JUMP_FORCE_PER_FRAME
}

/// The default of `max_nudge_force_per_frame`.
pub fn default_max_nudge_force_per_frame() -> (value: i64)
    ensures
        value == MAX_NUDGE_FORCE_PER_FRAME,
{
    MAX_NUDGE_FORCE_PER_FRAME
}

/// The default of `downward_pressure`.
pub fn default_downward_pressure() -> (value: i64)
    ensures
        value == DOWNWARD_PRESSURE,
{
    DOWNWARD_PRESSURE
}

/// The default of `peaking_threshold`.
pub fn default_peaking_threshold() -> (value: i64)
    ensures
        value == PEAKING_THRESHOLD,
{
    PEAKING_THRESHOLD
}

/// The default of `hopper_position_leeway`.
pub fn default_hopper_position_leeway() -> (value: i64)
    ensures
        value == HOPPER_POSITION_LEEWAY,
{
    HOPPER_POSITION_LEEWAY
}

impl GameConfiguration {
    /// Whether the systems can work with this configuration: every force,
    /// every cap and the downward pressure is at least nothing, and the
    /// debounce count is at most `MAX_DEBOUNCING_FRAME_COUNT`.
    pub open spec fn well_formed(&self) -> bool {
        &&& self.jump_force >= 0
        &&& self.sideways_force >= 0
        &&& self.max_jump_force_per_frame >= 0
        &&& self.max_nudge_force_per_frame >= 0
        &&& self.downward_pressure >= 0
        &&& self.debouncing_frame_count <= MAX_DEBOUNCING_FRAME_COUNT
    }

    /// Whether every field holds its default value.
    pub open spec fn has_default_values(&self) -> bool {
        &&& self.gravity_acceleration == GRAVITY_ACCELERATION
        &&& self.camera_z_position == CAMERA_Z_POSITION
        &&& self.hidden_z_position == HIDDEN_Z_POSITION
        &&& self.visible_z_position == VISIBLE_Z_POSITION
        &&& self.background_rel_x_position == BACKGROUND_REL_X_POSITION
        &&& self.background_rel_y_position == BACKGROUND_REL_Y_POSITION
        &&& self.background_z_position == BACKGROUND_Z_POSITION
        &&& self.background_scale == BACKGROUND_SCALE
        &&& self.hopper_sprite_name@ == HOPPER_SPRITE_NAME@
        &&& self.hopper_collision_rectangle_width == HOPPER_COLLISION_RECTANGLE_WIDTH
        &&& self.hopper_collision_rectangle_height == HOPPER_COLLISION_RECTANGLE_HEIGHT
        &&& self.rooftop_sprite_name@ == ROOFTOP_SPRITE_NAME@
        &&& self.rooftop_collision_rectangle_width == ROOFTOP_COLLISION_RECTANGLE_WIDTH
        &&& self.rooftop_collision_rectangle_height == ROOFTOP_COLLISION_RECTANGLE_HEIGHT
        &&& self.rooftop_collision_rectangle_offset_x == ROOFTOP_COLLISION_RECTANGLE_OFFSET_X
        &&& self.rooftop_collision_rectangle_offset_y == ROOFTOP_COLLISION_RECTANGLE_OFFSET_Y
        &&& self.jump_force == JUMP_FORCE
        &&& self.sideways_force == SIDEWAYS_FORCE
        &&& self.hopper_lower_y_boundary == HOPPER_LOWER_Y_BOUNDARY
        &&& self.debouncing_frame_count == DEBOUNCING_FRAME_COUNT
        &&& self.max_jump_force_per_frame == MAX_JUMP_FORCE_PER_FRAME
        &&& self.max_nudge_force_per_frame == MAX_NUDGE_FORCE_PER_FRAME
        &&& self.downward_pressure == DOWNWARD_PRESSURE
        &&& self.peaking_threshold == PEAKING_THRESHOLD
        &&& self.hopper_position_leeway == HOPPER_POSITION_LEEWAY
    }

    /// Tests `well_formed` at run time, for a configuration that was read
    /// from outside.
    pub fn is_well_formed(&self) -> (valid: bool)
        ensures
            valid == self.well_formed(),
    {
        self.jump_force >= 0 && self.sideways_force >= 0 && self.max_jump_force_per_frame >= 0
            && self.max_nudge_force_per_frame >= 0 && self.downward_pressure >= 0
            && self.debouncing_frame_count <= MAX_DEBOUNCING_FRAME_COUNT
    }
}

impl Default for GameConfiguration {
    fn default() -> (config: Self)
        ensures
            config.has_default_values(),
            config.well_formed(),
    {
        GameConfiguration {
            gravity_acceleration: default_gravity_acceleration(),
            camera_z_position: default_camera_z_position(),
            hidden_z_position: default_hidden_z_position(),
            visible_z_position: default_visible_z_position(),
            background_rel_x_position: default_background_rel_x_position(),
            background_rel_y_position: default_background_rel_y_position(),
            background_z_position: default_background_z_position(),
            background_scale: default_background_scale(),
            hopper_sprite_name: default_hopper_sprite_name(),
            hopper_collision_rectangle_width: default_hopper_collision_rectangle_width(),
            hopper_collision_rectangle_height: default_hopper_collision_rectangle_height(),
            rooftop_sprite_name: default_rooftop_sprite_name(),
            rooftop_collision_rectangle_width: default_rooftop_collision_rectangle_width(),
            rooftop_collision_rectangle_height: default_rooftop_collision_rectangle_height(),
            rooftop_collision_rectangle_offset_x: default_rooftop_collision_rectangle_offset_x(),
            rooftop_collision_rectangle_offset_y: default_rooftop_collision_rectangle_offset_y(),
            jump_force: default_jump_force(),
            sideways_force: default_sideways_force(),
            hopper_lower_y_boundary: default_hopper_lower_y_boundary(),
            debouncing_frame_count: default_debouncing_frame_count(),
            max_jump_force_per_frame: default_max_jump_force_per_frame(),
            max_nudge_force_per_frame: default_max_nudge_force_per_frame(),
            downward_pressure: default_downward_pressure(),
            peaking_threshold: default_peaking_threshold(),
            hopper_position_leeway: default_hopper_position_leeway(),
        }
    }
}

} // verus!

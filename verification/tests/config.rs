use roof_hopper::config::{
    default_debouncing_frame_count, default_hopper_sprite_name, default_rooftop_sprite_name,
    GameConfiguration, MAX_DEBOUNCING_FRAME_COUNT,
};
use roof_hopper::engine::UNIT;

#[test]
fn default_configuration_holds_the_documented_values() {
    let config = GameConfiguration::default();
    assert_eq!(config.gravity_acceleration, -98 * UNIT);
    assert_eq!(config.camera_z_position, UNIT);
    assert_eq!(config.hidden_z_position, 1000 * UNIT);
    assert_eq!(config.visible_z_position, 0);
    assert_eq!(config.background_rel_x_position, 0);
    assert_eq!(config.background_rel_y_position, UNIT / 2);
    assert_eq!(config.background_z_position, -UNIT);
    assert_eq!(config.background_scale, 3 * UNIT);
    assert_eq!(config.hopper_sprite_name, "Character Cat Girl");
    assert_eq!(config.hopper_collision_rectangle_width, 34 * UNIT);
    assert_eq!(config.hopper_collision_rectangle_height, 85_500);
    assert_eq!(config.rooftop_sprite_name, "Roof North");
    assert_eq!(config.rooftop_collision_rectangle_width, 101 * UNIT);
    assert_eq!(config.rooftop_collision_rectangle_height, 81 * UNIT);
    assert_eq!(config.rooftop_collision_rectangle_offset_x, 0);
    assert_eq!(config.rooftop_collision_rectangle_offset_y, -22_500);
    assert_eq!(config.jump_force, 16_800 * UNIT);
    assert_eq!(config.sideways_force, 1_100 * UNIT);
    assert_eq!(config.hopper_lower_y_boundary, -10 * UNIT);
    assert_eq!(config.debouncing_frame_count, 5);
    assert_eq!(config.max_jump_force_per_frame, 4_000 * UNIT);
    assert_eq!(config.max_nudge_force_per_frame, 400 * UNIT);
    assert_eq!(config.downward_pressure, 4 * UNIT);
    assert_eq!(config.peaking_threshold, 1_200);
    assert_eq!(config.hopper_position_leeway, 64 * UNIT);
}

#[test]
fn default_functions_give_the_defaults() {
    assert_eq!(default_hopper_sprite_name(), "Character Cat Girl");
    assert_eq!(default_rooftop_sprite_name(), "Roof North");
    assert_eq!(default_debouncing_frame_count(), 5);
}

#[test]
fn default_configuration_is_well_formed() {
    assert!(GameConfiguration::default().is_well_formed());
}

#[test]
fn negative_magnitudes_are_not_well_formed() {
    let mut config = GameConfiguration::default();
    config.max_jump_force_per_frame = -1;
    assert!(!config.is_well_formed());
    let mut config = GameConfiguration::default();
    config.max_nudge_force_per_frame = -1;
    assert!(!config.is_well_formed());
    let mut config = GameConfiguration::default();
    config.jump_force = -1;
    assert!(!config.is_well_formed());
    let mut config = GameConfiguration::default();
    config.sideways_force = -1;
    assert!(!config.is_well_formed());
    let mut config = GameConfiguration::default();
    config.downward_pressure = -1;
    assert!(!config.is_well_formed());
}

#[test]
fn debounce_count_must_leave_room_for_doubling() {
    let mut config = GameConfiguration::default();
    config.debouncing_frame_count = MAX_DEBOUNCING_FRAME_COUNT;
    assert!(config.is_well_formed());
    config.debouncing_frame_count = MAX_DEBOUNCING_FRAME_COUNT + 1;
    assert!(!config.is_well_formed());
}

#[test]
fn zero_magnitudes_are_well_formed() {
    let mut config = GameConfiguration::default();
    config.jump_force = 0;
    config.sideways_force = 0;
    config.max_jump_force_per_frame = 0;
    config.max_nudge_force_per_frame = 0;
    config.downward_pressure = 0;
    config.debouncing_frame_count = 0;
    assert!(config.is_well_formed());
}

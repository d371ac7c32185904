use roof_hopper::components::{BackgroundComponent, CollisionComponent};
use roof_hopper::config::GameConfiguration;
use roof_hopper::engine::{ContactEvent, Entity, ScreenDimensions, Transform, Vector3};
use roof_hopper::game_events::GameEvent;
use roof_hopper::systems::{CameraMovementSystem, EntityCollisionSystem, HopperBoundarySystem};

fn entity(id: u32) -> Entity {
    Entity { id, generation: 1 }
}

fn touch(a: u32, b: u32) -> ContactEvent {
    ContactEvent { bodies: (entity(a), entity(b)) }
}

fn free(id: u32) -> (Entity, CollisionComponent) {
    (entity(id), CollisionComponent { contact_event: None })
}

fn touching(id: u32, event: ContactEvent) -> (Entity, CollisionComponent) {
    (entity(id), CollisionComponent { contact_event: Some(event) })
}

#[test]
fn no_events_clear_every_contact() {
    let mut components = vec![touching(1, touch(1, 2)), free(2), touching(3, touch(3, 1))];
    EntityCollisionSystem.run(&mut components, &Vec::new());
    assert_eq!(components, vec![free(1), free(2), free(3)]);
}

#[test]
fn contact_sets_both_bodies() {
    let mut components = vec![free(1), free(2), free(3)];
    EntityCollisionSystem.run(&mut components, &vec![touch(1, 3)]);
    assert_eq!(
        components,
        vec![touching(1, touch(1, 3)), free(2), touching(3, touch(1, 3))]
    );
}

#[test]
fn contact_state_does_not_outlive_the_tick() {
    let mut components = vec![free(1), free(2)];
    EntityCollisionSystem.run(&mut components, &vec![touch(1, 2)]);
    assert!(components[0].1.is_in_collision());
    EntityCollisionSystem.run(&mut components, &Vec::new());
    assert_eq!(components, vec![free(1), free(2)]);
}

#[test]
fn last_contact_of_the_tick_wins() {
    let mut components = vec![free(1), free(2), free(3)];
    EntityCollisionSystem.run(&mut components, &vec![touch(1, 2), touch(3, 1), touch(2, 9)]);
    assert_eq!(
        components,
        vec![touching(1, touch(3, 1)), touching(2, touch(2, 9)), touching(3, touch(3, 1))]
    );
}

#[test]
fn untracked_body_is_ignored() {
    let mut components = vec![free(1)];
    EntityCollisionSystem.run(&mut components, &vec![touch(7, 8), touch(8, 1), touch(7, 9)]);
    assert_eq!(components, vec![touching(1, touch(8, 1))]);
}

#[test]
fn generation_is_part_of_the_identity() {
    let mut components = vec![free(1)];
    let stale = ContactEvent {
        bodies: (Entity { id: 1, generation: 2 }, Entity { id: 5, generation: 1 }),
    };
    EntityCollisionSystem.run(&mut components, &vec![stale]);
    assert_eq!(components, vec![free(1)]);
}

#[test]
fn body_in_contact_with_itself_is_set_once() {
    let mut components = vec![free(4)];
    EntityCollisionSystem.run(&mut components, &vec![touch(4, 4)]);
    assert_eq!(components, vec![touching(4, touch(4, 4))]);
}

#[test]
fn no_components_is_fine() {
    let mut components: Vec<(Entity, CollisionComponent)> = Vec::new();
    EntityCollisionSystem.run(&mut components, &vec![touch(1, 2)]);
    assert!(components.is_empty());
}

fn place(x: i64, y: i64, z: i64) -> Transform {
    Transform { translation: Vector3 { x, y, z } }
}

#[test]
fn camera_follows_the_hopper_upward() {
    let mut camera = place(10, 300_000, 1_000);
    let mut backgrounds = vec![
        (BackgroundComponent, place(0, 250_000, -1_000)),
        (BackgroundComponent, place(7, -40_000, -1_000)),
    ];
    CameraMovementSystem.run(&place(99, 320_500, 0), &mut camera, &mut backgrounds);
    assert_eq!(camera, place(10, 320_500, 1_000));
    assert_eq!(
        backgrounds,
        vec![
            (BackgroundComponent, place(0, 270_500, -1_000)),
            (BackgroundComponent, place(7, -19_500, -1_000)),
        ]
    );
}

#[test]
fn camera_stays_when_the_hopper_is_below_it() {
    let mut camera = place(10, 300_000, 1_000);
    let mut backgrounds = vec![(BackgroundComponent, place(0, 250_000, -1_000))];
    CameraMovementSystem.run(&place(99, 299_999, 0), &mut camera, &mut backgrounds);
    assert_eq!(camera, place(10, 300_000, 1_000));
    assert_eq!(backgrounds, vec![(BackgroundComponent, place(0, 250_000, -1_000))]);
}

#[test]
fn camera_stays_when_the_hopper_is_level_with_it() {
    let mut camera = place(10, 300_000, 1_000);
    let mut backgrounds = vec![(BackgroundComponent, place(0, 250_000, -1_000))];
    CameraMovementSystem.run(&place(99, 300_000, 0), &mut camera, &mut backgrounds);
    assert_eq!(camera, place(10, 300_000, 1_000));
    assert_eq!(backgrounds, vec![(BackgroundComponent, place(0, 250_000, -1_000))]);
}

#[test]
fn camera_can_be_lifted_across_the_whole_range() {
    let mut camera = place(0, i64::MIN, 0);
    let mut backgrounds = vec![(BackgroundComponent, place(0, i64::MIN, 0))];
    CameraMovementSystem.run(&place(0, i64::MAX, 0), &mut camera, &mut backgrounds);
    assert_eq!(camera, place(0, i64::MAX, 0));
    assert_eq!(backgrounds, vec![(BackgroundComponent, place(0, i64::MAX, 0))]);
}

fn out_of_bounds(hopper_y: i64, camera_y: i64, screen_height: i64) -> Option<GameEvent> {
    let config = GameConfiguration::default();
    HopperBoundarySystem.run(
        &place(0, hopper_y, 0),
        &place(0, camera_y, 1_000),
        &ScreenDimensions { width: 800_000, height: screen_height },
        &config,
    )
}

#[test]
fn hopper_below_the_lower_boundary_is_out_of_bounds() {
    // boundary = 300 - 600 / 2 - (-10) = 10
    assert_eq!(out_of_bounds(9_999, 300_000, 600_000), Some(GameEvent::PlayerOutOfBounds));
    assert_eq!(out_of_bounds(-500_000, 300_000, 600_000), Some(GameEvent::PlayerOutOfBounds));
}

#[test]
fn hopper_on_the_lower_boundary_is_in_bounds() {
    assert_eq!(out_of_bounds(10_000, 300_000, 600_000), None);
}

#[test]
fn hopper_above_the_lower_boundary_is_in_bounds() {
    assert_eq!(out_of_bounds(10_001, 300_000, 600_000), None);
    assert_eq!(out_of_bounds(300_000, 300_000, 600_000), None);
}

#[test]
fn boundary_follows_the_camera() {
    assert_eq!(out_of_bounds(100_000, 300_000, 600_000), None);
    assert_eq!(out_of_bounds(100_000, 500_000, 600_000), Some(GameEvent::PlayerOutOfBounds));
}

#[test]
fn half_a_step_of_an_odd_screen_height_counts() {
    // boundary = 300 - 600.001 / 2 + 10 = 9.9995
    assert_eq!(out_of_bounds(10_000, 300_000, 600_001), None);
    assert_eq!(out_of_bounds(9_999, 300_000, 600_001), Some(GameEvent::PlayerOutOfBounds));
    // boundary = 300 - 599.999 / 2 + 10 = 10.0005
    assert_eq!(out_of_bounds(10_000, 300_000, 599_999), Some(GameEvent::PlayerOutOfBounds));
    assert_eq!(out_of_bounds(10_001, 300_000, 599_999), None);
}

#[test]
fn boundary_margin_comes_from_the_configuration() {
    let mut config = GameConfiguration::default();
    config.hopper_lower_y_boundary = 50_000;
    let screen = ScreenDimensions { width: 800_000, height: 600_000 };
    // boundary = 300 - 300 - 50 = -50
    let camera = place(0, 300_000, 0);
    assert_eq!(HopperBoundarySystem.run(&place(0, -50_000, 0), &camera, &screen, &config), None);
    assert_eq!(
        HopperBoundarySystem.run(&place(0, -50_001, 0), &camera, &screen, &config),
        Some(GameEvent::PlayerOutOfBounds)
    );
}

#[test]
fn extreme_positions_do_not_overflow() {
    assert_eq!(out_of_bounds(i64::MIN, i64::MAX, i64::MIN), Some(GameEvent::PlayerOutOfBounds));
    assert_eq!(out_of_bounds(i64::MAX, i64::MIN, i64::MAX), None);
}

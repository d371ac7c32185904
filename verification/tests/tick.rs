use roof_hopper::bundle::GameBundle;
use roof_hopper::components::{CollisionComponent, HopperComponent, HopperState, RooftopComponent};
use roof_hopper::config::GameConfiguration;
use roof_hopper::engine::{
    CollisionShape, ContactEvent, Entity, Transform, Vector2, Vector3, Velocity2,
};
use roof_hopper::resources::{MainCameraEntityResource, PlayerEntityResource};

const PLAYER: Entity = Entity { id: 1, generation: 1 };
const BASE_ROOF: Entity = Entity { id: 2, generation: 1 };

struct World {
    player: PlayerEntityResource,
    collision_components: Vec<(Entity, CollisionComponent)>,
    hopper: HopperComponent,
    velocity: Velocity2,
    transform: Transform,
    rooftops: Vec<(RooftopComponent, Transform, CollisionShape)>,
    config: GameConfiguration,
}

fn at_height(y: i64) -> Transform {
    Transform { translation: Vector3 { x: 400_000, y, z: 0 } }
}

fn world(state: HopperState, jump_force: i64) -> World {
    World {
        player: PlayerEntityResource { player_entity: PLAYER },
        collision_components: vec![
            (BASE_ROOF, CollisionComponent::default()),
            (PLAYER, CollisionComponent::default()),
        ],
        hopper: HopperComponent { hopper_state: state, nudge_force: 0, jump_force },
        velocity: Velocity2 { linear: Vector2 { x: 0, y: 0 }, angular: 0 },
        transform: at_height(180_000),
        rooftops: vec![
            (
                RooftopComponent::default().with_collision_enabled(true),
                at_height(120_000),
                CollisionShape { enabled: true },
            ),
            (RooftopComponent::default(), at_height(300_000), CollisionShape { enabled: true }),
        ],
        config: GameConfiguration::default(),
    }
}

fn tick(world: &mut World, contacts: Vec<ContactEvent>, engine_velocity: Velocity2) -> Option<Vector2> {
    world.velocity = engine_velocity;
    GameBundle.run(
        &world.player,
        &contacts,
        &mut world.collision_components,
        &mut world.hopper,
        &mut world.velocity,
        &world.transform,
        &mut world.rooftops,
        &world.config,
    )
}

fn on_the_roof() -> Vec<ContactEvent> {
    vec![ContactEvent { bodies: (PLAYER, BASE_ROOF) }]
}

fn moving(y: i64) -> Velocity2 {
    Velocity2 { linear: Vector2 { x: 12, y }, angular: 3 }
}

#[test]
fn resources_name_their_entities() {
    let player = PlayerEntityResource { player_entity: PLAYER };
    let camera = MainCameraEntityResource { main_camera_entity: BASE_ROOF };
    assert_eq!(player.player_entity, PLAYER);
    assert_eq!(camera.main_camera_entity, BASE_ROOF);
}

#[test]
fn player_at_rest_in_contact_stays_at_rest_and_is_held_down() {
    let mut w = world(HopperState::Resting, 0);
    let force = tick(&mut w, on_the_roof(), moving(2_500));
    assert_eq!(force, None);
    assert_eq!(w.hopper.hopper_state, HopperState::Resting);
    assert_eq!(w.hopper.jump_force, 0);
    assert_eq!(w.velocity, Velocity2 { linear: Vector2 { x: 0, y: -4_000 }, angular: 0 });
    assert!(w.collision_components[1].1.is_in_collision());
    assert!(w.collision_components[0].1.is_in_collision());
}

#[test]
fn bouncing_one_in_contact_rests_at_the_next_tick() {
    let mut w = world(HopperState::Bouncing(1), 0);
    tick(&mut w, on_the_roof(), moving(900));
    assert_eq!(w.hopper.hopper_state, HopperState::Resting);
    assert_eq!(w.velocity.linear, Vector2 { x: 0, y: -4_000 });
}

#[test]
fn bouncing_twelve_out_of_contact_rises_at_the_next_tick() {
    let mut w = world(HopperState::Bouncing(12), 0);
    let force = tick(&mut w, Vec::new(), moving(5_000));
    assert_eq!(force, None);
    assert_eq!(w.hopper.hopper_state, HopperState::Rising);
    assert_eq!(w.velocity, moving(5_000));
}

#[test]
fn released_hopper_is_refined_in_the_same_tick() {
    let mut w = world(HopperState::Bouncing(12), 0);
    tick(&mut w, Vec::new(), moving(-5_000));
    assert_eq!(w.hopper.hopper_state, HopperState::Falling);
    let mut w = world(HopperState::Bouncing(12), 0);
    tick(&mut w, Vec::new(), moving(100));
    assert_eq!(w.hopper.hopper_state, HopperState::Peaking);
}

#[test]
fn landing_hopper_starts_bouncing_and_is_held_down() {
    let mut w = world(HopperState::Falling, 0);
    tick(&mut w, on_the_roof(), moving(-9_000));
    assert_eq!(w.hopper.hopper_state, HopperState::Bouncing(5));
    assert_eq!(w.velocity, Velocity2 { linear: Vector2 { x: 0, y: -4_000 }, angular: 0 });
}

#[test]
fn contact_between_other_bodies_does_not_touch_the_player() {
    let mut w = world(HopperState::Falling, 0);
    let other = ContactEvent { bodies: (BASE_ROOF, Entity { id: 9, generation: 1 }) };
    tick(&mut w, vec![other], moving(-9_000));
    assert_eq!(w.hopper.hopper_state, HopperState::Falling);
    assert_eq!(w.velocity, moving(-9_000));
    assert_eq!(w.collision_components[0].1.contact_event, Some(other));
    assert_eq!(w.collision_components[1].1.contact_event, None);
}

#[test]
fn jump_from_rest_is_handed_over_in_five_ticks() {
    let mut w = world(HopperState::Resting, 0);
    w.hopper.start_jump(&w.config);
    assert_eq!(w.hopper.jump_force, 16_800_000);
    let mut submitted: Vec<Option<Vector2>> = Vec::new();
    for count in 0..5 {
        // the hopper still touches the roof in the first tick
        let contacts = if count == 0 { on_the_roof() } else { Vec::new() };
        submitted.push(tick(&mut w, contacts, moving(20_000)));
        assert_eq!(w.hopper.hopper_state, HopperState::Rising);
        assert_eq!(w.velocity, moving(20_000));
    }
    assert_eq!(
        submitted,
        vec![
            Some(Vector2 { x: 0, y: 4_000_000 }),
            Some(Vector2 { x: 0, y: 4_000_000 }),
            Some(Vector2 { x: 0, y: 4_000_000 }),
            Some(Vector2 { x: 0, y: 4_000_000 }),
            Some(Vector2 { x: 0, y: 800_000 }),
        ]
    );
    assert_eq!(w.hopper.jump_force, 0);
    assert_eq!(tick(&mut w, Vec::new(), moving(20_000)), None);
    assert_eq!(w.hopper.hopper_state, HopperState::Rising);
}

#[test]
fn pending_jump_keeps_the_hopper_soaring_whatever_the_velocity() {
    let mut w = world(HopperState::Resting, 8_000_000);
    tick(&mut w, on_the_roof(), moving(-3_000));
    assert_eq!(w.hopper.hopper_state, HopperState::Falling);
    assert_eq!(w.velocity, moving(-3_000));
    assert_eq!(w.hopper.jump_force, 4_000_000);
}

#[test]
fn rooftops_are_armed_in_the_tick() {
    let mut w = world(HopperState::Rising, 0);
    tick(&mut w, Vec::new(), moving(20_000));
    assert!(w.rooftops[0].0.is_collision_enabled);
    assert!(!w.rooftops[1].0.is_collision_enabled);
    assert!(!w.rooftops[1].2.enabled);
    w.transform = at_height(364_001);
    tick(&mut w, Vec::new(), moving(20_000));
    assert!(w.rooftops[1].0.is_collision_enabled);
    assert!(w.rooftops[1].2.enabled);
    w.transform = at_height(0);
    tick(&mut w, Vec::new(), moving(-20_000));
    assert!(w.rooftops[1].0.is_collision_enabled);
    assert!(w.rooftops[1].2.enabled);
}

#[test]
fn hopper_that_steps_off_the_roof_bounces_up_to_release() {
    let mut w = world(HopperState::Resting, 0);
    let mut states: Vec<HopperState> = Vec::new();
    for _ in 0..12 {
        tick(&mut w, Vec::new(), moving(-20_000));
        states.push(w.hopper.hopper_state);
    }
    let mut expected: Vec<HopperState> = (1..=11).map(HopperState::Bouncing).collect();
    expected.push(HopperState::Falling);
    assert_eq!(states, expected);
}

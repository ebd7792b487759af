use gardening_gun::ammunition::populate_pickable_ammo;
use gardening_gun::arena::populate_block;
use gardening_gun::editing_helpers::GridSize;
use gardening_gun::gate::populate_gate;
use gardening_gun::goblin::populate_goblin;
use gardening_gun::math::{UVec2, Vec3, UNIT};
use gardening_gun::planting::PlantType;
use gardening_gun::player::populate_player;
use gardening_gun::player_controls::PlayerInput;
use gardening_gun::schedule::{run_frame, FrameInput};
use gardening_gun::utils::{CollisionEvent, CollisionEventFlags};
use gardening_gun::world::{Command, World};
use gardening_gun::AppState;

fn quiet(delta: u64) -> FrameInput {
    FrameInput {
        delta,
        collisions: Vec::new(),
        inputs: Vec::new(),
        animating: Vec::new(),
        ready_animations: Vec::new(),
    }
}

fn started(a: u64, b: u64, sensor: bool) -> CollisionEvent {
    CollisionEvent::Started(a, b, CollisionEventFlags { sensor, removed: false })
}

#[test]
fn a_level_is_played_through_frame_by_frame() {
    let mut world = World::new();
    let player = populate_player(&mut world, Vec3::new(0, 0, 0));
    let goblin = populate_goblin(&mut world, Vec3::new(8 * UNIT, 0, 0));
    let gate = populate_gate(&mut world, Vec3::new(12 * UNIT, 0, 0));
    let ammo = populate_pickable_ammo(&mut world, Vec3::new(UNIT, 0, 0), PlantType::Tree);
    let ground = populate_block(&mut world, Vec3::new(0, -UNIT, 0), GridSize(UVec2 { x: 30, y: 1 }));
    world.apply_commands();

    // The player walks into the ammunition.
    let mut frame = quiet(16_000);
    frame.collisions = vec![started(ammo, player, true)];
    let commands = run_frame(&mut world, AppState::Game, &frame);
    assert!(commands.contains(&Command::Despawn { entity: ammo }));
    let carried = world.get(player).unwrap().can_carry.unwrap().carries.unwrap();
    assert!(world.contains(carried));
    assert!(!world.contains(ammo));

    // The player shoots at the goblin: a bullet leaves and the ammunition recoils.
    let mut frame = quiet(16_000);
    frame.inputs = vec![PlayerInput { entity: player, run: Some(UNIT), jump: 0, shoot: true }];
    let commands = run_frame(&mut world, AppState::Game, &frame);
    let bullet = commands
        .iter()
        .find_map(|command| match command {
            Command::Spawn { actor } if actor.bullet.is_some() => Some(actor.id),
            _ => None,
        })
        .unwrap();
    assert!(world.get(carried).unwrap().flying_seed.is_some());
    assert_eq!(world.get(player).unwrap().can_carry.unwrap().carries, None);

    // The bullet hits the goblin, the seed lands.
    let mut frame = quiet(16_000);
    frame.collisions = vec![started(bullet, goblin, true), started(carried, ground, false)];
    run_frame(&mut world, AppState::Game, &frame);
    assert!(!world.contains(bullet));
    assert!(!world.contains(carried));
    assert!(!world.get(goblin).unwrap().killable.unwrap().still_alive);
    assert!(!world.get(gate).unwrap().gate.unwrap().is_open);
    let plant = world.actors.iter().find(|actor| actor.growing.is_some()).unwrap().id;

    // The frame after the goblin died the gates open, and the plant grows.
    run_frame(&mut world, AppState::Game, &quiet(16_000));
    assert!(world.get(gate).unwrap().gate.unwrap().is_open);
    assert_eq!(world.get(plant).unwrap().scale, 132_000);
    for _ in 0..30 {
        run_frame(&mut world, AppState::Game, &quiet(16_000));
    }
    assert_eq!(world.get(plant).unwrap().scale, UNIT);
    assert!(world.get(plant).unwrap().growing.is_none());
    assert_eq!(world.next_state, None);

    // The player reaches the open gate.
    let mut frame = quiet(16_000);
    frame.collisions = vec![started(player, gate, true)];
    run_frame(&mut world, AppState::Game, &frame);
    assert_eq!(world.take_next_state(), Some(AppState::LevelCompleted));
}

#[test]
fn outside_the_game_time_stands_still() {
    let mut world = World::new();
    let player = populate_player(&mut world, Vec3::new(0, 0, 0));
    let gate = populate_gate(&mut world, Vec3::new(0, 0, 0));
    world.apply_commands();
    let mut cooling = world.get(player).unwrap();
    let mut can_shoot = cooling.can_shoot.unwrap();
    can_shoot.cooldown.reset();
    cooling.can_shoot = Some(can_shoot);
    world.put(player, cooling);
    let mut frame = quiet(500_000);
    frame.inputs = vec![PlayerInput { entity: player, run: Some(-UNIT), jump: 0, shoot: true }];
    let commands = run_frame(&mut world, AppState::PauseMenu, &frame);
    assert!(commands.is_empty());
    assert_eq!(world.get(player).unwrap().can_shoot.unwrap().cooldown.elapsed, 0);
    assert_eq!(world.get(player).unwrap().controls.unwrap().desired_forward, Vec3::new(UNIT, 0, 0));
    assert!(!world.get(gate).unwrap().gate.unwrap().is_open);
    run_frame(&mut world, AppState::Game, &frame);
    assert_eq!(world.get(player).unwrap().can_shoot.unwrap().cooldown.elapsed, 500_000);
    assert!(world.get(gate).unwrap().gate.unwrap().is_open);
}

#[test]
fn a_fall_off_the_level_ends_the_game() {
    let mut world = World::new();
    let player = populate_player(&mut world, Vec3::new(0, 0, 0));
    populate_block(&mut world, Vec3::new(0, 0, 0), GridSize(UVec2 { x: 1, y: 1 }));
    world.apply_commands();
    assert!(world.set_position(player, Vec3::new(0, -51 * UNIT, 0)));
    let commands = run_frame(&mut world, AppState::Game, &quiet(16_000));
    assert_eq!(commands.len(), 2);
    assert!(!world.get(player).unwrap().killable.unwrap().still_alive);
    assert_eq!(world.next_state, Some(AppState::GameOver));
}

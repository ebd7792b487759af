use gardening_gun::ammunition::{
    handle_carrying, handle_useup, initiate_pickup, populate_pickable_ammo, PickEvent,
    UseUpShotEvent,
};
use gardening_gun::animating::{AnimationClipName, AnimationPlayerName};
use gardening_gun::gate::{initiate_gate_opening, pass_through_gate, populate_gate};
use gardening_gun::goblin::{handle_goblin_hitting_stuff, populate_goblin};
use gardening_gun::killing::{game_over_when_killing_player, handle_killing, KillEvent};
use gardening_gun::math::{Vec2, Vec3, UNIT};
use gardening_gun::planting::{apply_growing, initiate_planting, FertileGround, PlantType};
use gardening_gun::player::populate_player;
use gardening_gun::player_controls::ShootEvent;
use gardening_gun::shooting::{
    apply_shooting, destroy_bullet_when_colliding_with_wall, destroy_bullets_after_timeout,
    update_can_shoot_cooldown,
};
use gardening_gun::utils::{CollisionEvent, CollisionEventFlags};
use gardening_gun::world::{Actor, Command, Velocity, World};
use gardening_gun::AppState;

fn sensor(a: u64, b: u64) -> CollisionEvent {
    CollisionEvent::Started(a, b, CollisionEventFlags { sensor: true, removed: false })
}

fn solid(a: u64, b: u64) -> CollisionEvent {
    CollisionEvent::Started(a, b, CollisionEventFlags { sensor: false, removed: false })
}

fn origin() -> Vec3 {
    Vec3::new(0, 0, 0)
}

#[test]
fn ammunition_is_picked_shot_planted_and_grown() {
    let mut world = World::new();
    let player = populate_player(&mut world, origin());
    let ammo = populate_pickable_ammo(&mut world, Vec3::new(2 * UNIT, 0, 0), PlantType::Tree);
    let mut ground = Actor::bare(0, Vec3::new(10 * UNIT, -UNIT, 0));
    ground.fertile_ground = Some(FertileGround);
    let ground = world.spawn(ground);
    world.apply_commands();

    // Pickup: the carrier goes from idle to carrying, with one shot.
    let picks = initiate_pickup(&world, &vec![sensor(ammo, player)]);
    assert_eq!(picks, vec![PickEvent { picker: player, pickable: ammo }]);
    handle_carrying(&mut world, &picks);
    let carried = world.get(player).unwrap().can_carry.unwrap().carries.unwrap();
    world.apply_commands();
    assert!(!world.contains(ammo));
    let carried_actor = world.get(carried).unwrap();
    assert_eq!(carried_actor.carried_ammunition.unwrap().remaining_shots, 1);
    assert_eq!(carried_actor.scale, UNIT / 2);
    assert_eq!(carried_actor.plant_type, Some(PlantType::Tree));
    assert_eq!(carried_actor.parent, Some(player + 1));

    // Shot: the use-up event recoils against the shot.
    let shot = vec![ShootEvent { shooter_entity: player, direction: Vec3::new(UNIT, 0, 0) }];
    let use_ups = apply_shooting(&mut world, &shot);
    assert_eq!(
        use_ups,
        vec![UseUpShotEvent {
            carrier_entity: player,
            carried_ammunition_entity: carried,
            eject_direction: Vec3::new(-UNIT, 0, 0),
        }]
    );
    handle_useup(&mut world, &use_ups);
    assert_eq!(world.get(player).unwrap().can_carry.unwrap().carries, None);
    assert_eq!(world.get(carried).unwrap().carried_ammunition.unwrap().remaining_shots, 0);
    assert_eq!(world.get(carried).unwrap().scale, 400_000);
    let commands = world.apply_commands();
    let ejects: Vec<&Command> =
        commands.iter().filter(|command| matches!(command, Command::Eject { .. })).collect();
    assert_eq!(ejects.len(), 1);
    assert_eq!(
        *ejects[0],
        Command::Eject {
            entity: carried,
            velocity: Velocity {
                linvel: Vec2 { x: -3 * UNIT, y: 20 * UNIT },
                angvel: 10 * UNIT,
            },
        }
    );
    let seed = world.get(carried).unwrap();
    assert!(seed.flying_seed.is_some());
    assert_eq!(seed.parent, None);

    // Landing: the seed goes, a plant comes one unit above it.
    assert!(world.set_position(carried, Vec3::new(10 * UNIT, 0, 0)));
    initiate_planting(&mut world, &vec![solid(ground, carried)]);
    let commands = world.apply_commands();
    assert!(!world.contains(carried));
    let plant = match commands[1] {
        Command::Spawn { actor } => actor.id,
        _ => panic!("the plant is created after the seed is removed"),
    };
    let planted = world.get(plant).unwrap();
    assert_eq!(planted.position, Vec3::new(10 * UNIT, UNIT, 0));
    assert_eq!(planted.scale, UNIT / 10);
    assert!(planted.growing.is_some());
    assert_eq!(planted.plant_type, Some(PlantType::Tree));

    // Growth: after 0.45 seconds the plant has its full size.
    apply_growing(&mut world, 450_000);
    assert_eq!(world.get(plant).unwrap().scale, UNIT);
    let commands = world.apply_commands();
    assert_eq!(
        commands,
        vec![
            Command::Translate { entity: plant, by: Vec3::new(0, 900_000, 0) },
            Command::RemoveGrowing { entity: plant },
        ]
    );
    assert!(world.get(plant).unwrap().growing.is_none());
    apply_growing(&mut world, 450_000);
    assert_eq!(world.get(plant).unwrap().scale, UNIT);
    assert!(world.apply_commands().is_empty());
}

#[test]
fn killing_the_goblin_opens_the_gate_and_passing_it_completes_the_level() {
    let mut world = World::new();
    let player = populate_player(&mut world, origin());
    let goblin = populate_goblin(&mut world, Vec3::new(5 * UNIT, 0, 0));
    let gate = populate_gate(&mut world, Vec3::new(9 * UNIT, 0, 0));
    world.apply_commands();

    // The goblin is alive: no gate opens, and touching it does nothing.
    initiate_gate_opening(&mut world);
    assert!(world.apply_commands().is_empty());
    assert!(!world.get(gate).unwrap().gate.unwrap().is_open);
    pass_through_gate(&mut world, &vec![sensor(player, gate)]);
    assert_eq!(world.next_state, None);

    // A bullet hits the goblin.
    let shooter_has_nothing = apply_shooting(
        &mut world,
        &vec![ShootEvent { shooter_entity: player, direction: Vec3::new(UNIT, 0, 0) }],
    );
    assert!(shooter_has_nothing.is_empty());
    let mut bullet = Actor::bare(0, Vec3::new(4 * UNIT, 0, 0));
    bullet.bullet = Some(gardening_gun::shooting::Bullet {
        timeout: gardening_gun::shooting::Countdown::new(20 * 1_000_000),
    });
    let bullet = world.spawn(bullet);
    world.apply_commands();
    let collisions = vec![sensor(bullet, goblin)];
    let kills = handle_goblin_hitting_stuff(&world, &collisions);
    assert_eq!(kills, vec![KillEvent { entity_to_kill: goblin }]);
    destroy_bullet_when_colliding_with_wall(&mut world, &collisions);
    handle_killing(&mut world, &kills);
    game_over_when_killing_player(&mut world, &kills);
    assert_eq!(world.next_state, None);
    assert!(!world.get(goblin).unwrap().killable.unwrap().still_alive);
    let commands = world.apply_commands();
    assert_eq!(commands.len(), 3);
    assert_eq!(commands[0], Command::Despawn { entity: bullet });
    assert_eq!(commands[1], Command::RemoveDestroysBullets { entity: goblin });
    match commands[2] {
        Command::PlayAnimation { owner, animation } => {
            assert_eq!(owner, goblin);
            assert_eq!(animation.player, AnimationPlayerName::Armature);
            assert_eq!(animation.clip, AnimationClipName::Death);
            assert!(animation.required);
        }
        _ => panic!("the death is played"),
    }
    assert!(!world.contains(bullet));
    assert!(world.get(goblin).unwrap().destroys_bullets.is_none());

    // A second kill changes nothing and plays nothing.
    handle_killing(&mut world, &kills);
    assert!(world.apply_commands().is_empty());

    // In the next frame every gate opens, once.
    initiate_gate_opening(&mut world);
    assert!(world.get(gate).unwrap().gate.unwrap().is_open);
    let commands = world.apply_commands();
    assert_eq!(commands.len(), 1);
    match commands[0] {
        Command::PlayAnimation { owner, animation } => {
            assert_eq!(owner, gate);
            assert_eq!(animation.player, AnimationPlayerName::GateOpener);
            assert_eq!(animation.clip, AnimationClipName::Open);
        }
        _ => panic!("the opening is played"),
    }
    initiate_gate_opening(&mut world);
    assert!(world.apply_commands().is_empty());
    assert!(world.get(gate).unwrap().gate.unwrap().is_open);

    // The player touches the open gate.
    pass_through_gate(&mut world, &vec![sensor(gate, player)]);
    assert_eq!(world.next_state, Some(AppState::LevelCompleted));
}

#[test]
fn cooldown_and_timeout_run_on_the_engine_timer() {
    let mut world = World::new();
    let player = populate_player(&mut world, origin());
    let ammo = populate_pickable_ammo(&mut world, origin(), PlantType::Tree);
    world.apply_commands();
    handle_carrying(&mut world, &vec![PickEvent { picker: player, pickable: ammo }]);
    world.apply_commands();
    let shot = vec![ShootEvent { shooter_entity: player, direction: Vec3::new(-UNIT, 0, 0) }];
    assert_eq!(apply_shooting(&mut world, &shot).len(), 1);
    let commands = world.apply_commands();
    let bullet = match commands[0] {
        Command::Spawn { actor } => actor,
        _ => panic!("a bullet is created"),
    };
    assert_eq!(bullet.position, Vec3::new(-UNIT, 0, 0));
    assert_eq!(
        bullet.velocity,
        Some(Velocity { linvel: Vec2 { x: -20 * UNIT, y: 0 }, angvel: 0 })
    );
    // The cooldown has started over: the next shot is ignored until a second has passed.
    assert_eq!(world.get(player).unwrap().can_shoot.unwrap().cooldown.elapsed, 0);
    assert!(apply_shooting(&mut world, &shot).is_empty());
    update_can_shoot_cooldown(&mut world, 400_000);
    assert_eq!(world.get(player).unwrap().can_shoot.unwrap().cooldown.elapsed, 400_000);
    assert!(!world.get(player).unwrap().can_shoot.unwrap().cooldown.finished());
    update_can_shoot_cooldown(&mut world, 700_000);
    assert_eq!(world.get(player).unwrap().can_shoot.unwrap().cooldown.elapsed, 1_000_000);
    assert!(world.get(player).unwrap().can_shoot.unwrap().cooldown.finished());
    // The bullet lives for twenty seconds.
    destroy_bullets_after_timeout(&mut world, 19_999_999);
    assert!(world.apply_commands().is_empty());
    assert_eq!(world.get(bullet.id).unwrap().bullet.unwrap().timeout.elapsed, 19_999_999);
    destroy_bullets_after_timeout(&mut world, 1);
    assert_eq!(world.apply_commands(), vec![Command::Despawn { entity: bullet.id }]);
    assert!(!world.contains(bullet.id));
}

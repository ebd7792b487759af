use gardening_gun::ammunition::{
    handle_carrying, handle_useup, initiate_pickup, populate_pickable_ammo, CanCarry,
    CarriedAmmunition, PickEvent, UseUpShotEvent,
};
use gardening_gun::math::{Vec2, Vec3, UNIT};
use gardening_gun::planting::PlantType;
use gardening_gun::player::populate_player;
use gardening_gun::player_controls::ShootEvent;
use gardening_gun::shooting::{apply_shooting, CanShoot, Countdown};
use gardening_gun::utils::{CollisionEvent, CollisionEventFlags};
use gardening_gun::world::{Actor, Command, Velocity, World};

fn sensor(a: u64, b: u64) -> CollisionEvent {
    CollisionEvent::Started(a, b, CollisionEventFlags { sensor: true, removed: false })
}

fn carrying_player() -> (World, u64, u64) {
    let mut world = World::new();
    let player = populate_player(&mut world, Vec3::new(0, 0, 0));
    let ammo = populate_pickable_ammo(&mut world, Vec3::new(0, 0, 0), PlantType::Tree);
    world.apply_commands();
    handle_carrying(&mut world, &vec![PickEvent { picker: player, pickable: ammo }]);
    world.apply_commands();
    let carried = world.get(player).unwrap().can_carry.unwrap().carries.unwrap();
    (world, player, carried)
}

#[test]
fn only_a_picker_touching_a_pickable_raises_a_pick_event() {
    let mut world = World::new();
    let player = populate_player(&mut world, Vec3::new(0, 0, 0));
    let first = populate_pickable_ammo(&mut world, Vec3::new(0, 0, 0), PlantType::Tree);
    let second = populate_pickable_ammo(&mut world, Vec3::new(0, 0, 0), PlantType::Tree);
    world.apply_commands();
    let solid = CollisionEvent::Started(
        player,
        second,
        CollisionEventFlags { sensor: false, removed: false },
    );
    let events = vec![sensor(first, second), sensor(first, player), solid, sensor(player, 77)];
    assert_eq!(
        initiate_pickup(&world, &events),
        vec![PickEvent { picker: player, pickable: first }]
    );
}

#[test]
fn a_carrier_that_carries_ignores_further_pickups() {
    let (mut world, player, carried) = carrying_player();
    let more = populate_pickable_ammo(&mut world, Vec3::new(0, 0, 0), PlantType::Tree);
    world.apply_commands();
    let before = world.actors.clone();
    handle_carrying(
        &mut world,
        &vec![PickEvent { picker: player, pickable: more }, PickEvent { picker: player, pickable: more }],
    );
    assert_eq!(world.actors, before);
    assert!(world.apply_commands().is_empty());
    assert!(world.contains(more));
    assert_eq!(world.get(player).unwrap().can_carry, Some(CanCarry { carries: Some(carried) }));
}

#[test]
fn of_two_pickups_in_one_frame_the_first_wins() {
    let mut world = World::new();
    let player = populate_player(&mut world, Vec3::new(0, 0, 0));
    let first = populate_pickable_ammo(&mut world, Vec3::new(0, 0, 0), PlantType::Tree);
    let second = populate_pickable_ammo(&mut world, Vec3::new(0, 0, 0), PlantType::Tree);
    world.apply_commands();
    handle_carrying(
        &mut world,
        &vec![PickEvent { picker: player, pickable: first }, PickEvent { picker: player, pickable: second }],
    );
    let commands = world.apply_commands();
    assert_eq!(commands.len(), 2);
    assert_eq!(commands[0], Command::Despawn { entity: first });
    assert!(!world.contains(first));
    assert!(world.contains(second));
}

#[test]
fn a_pickup_needs_a_carrier_and_a_kind() {
    let mut world = World::new();
    let player = populate_player(&mut world, Vec3::new(0, 0, 0));
    let plain = world.spawn(Actor::bare(0, Vec3::new(0, 0, 0)));
    let ammo = populate_pickable_ammo(&mut world, Vec3::new(0, 0, 0), PlantType::Tree);
    world.apply_commands();
    let before = world.actors.clone();
    handle_carrying(
        &mut world,
        &vec![
            PickEvent { picker: plain, pickable: ammo },
            PickEvent { picker: player, pickable: plain },
            PickEvent { picker: player, pickable: 404 },
            PickEvent { picker: 404, pickable: ammo },
        ],
    );
    assert_eq!(world.actors, before);
    assert!(world.apply_commands().is_empty());
}

#[test]
fn a_use_up_event_about_what_is_not_there_is_dropped() {
    let (mut world, player, carried) = carrying_player();
    let before = world.actors.clone();
    let recoil = Vec3::new(UNIT, 0, 0);
    handle_useup(
        &mut world,
        &vec![
            UseUpShotEvent { carrier_entity: player, carried_ammunition_entity: 404, eject_direction: recoil },
            UseUpShotEvent { carrier_entity: player, carried_ammunition_entity: player, eject_direction: recoil },
        ],
    );
    assert_eq!(world.actors, before);
    assert!(world.apply_commands().is_empty());
    assert_eq!(world.get(player).unwrap().can_carry.unwrap().carries, Some(carried));
}

#[test]
fn a_use_up_event_for_what_cannot_carry_is_dropped() {
    let (mut world, player, carried) = carrying_player();
    let before = world.actors.clone();
    let recoil = Vec3::new(UNIT, 0, 0);
    handle_useup(
        &mut world,
        &vec![
            UseUpShotEvent { carrier_entity: 404, carried_ammunition_entity: carried, eject_direction: recoil },
            UseUpShotEvent { carrier_entity: carried, carried_ammunition_entity: carried, eject_direction: recoil },
            UseUpShotEvent { carrier_entity: player + 1, carried_ammunition_entity: carried, eject_direction: recoil },
        ],
    );
    assert_eq!(world.actors, before);
    assert!(world.apply_commands().is_empty());
}

#[test]
fn the_seed_leaves_at_three_times_the_recoil_and_twenty_upward() {
    let (mut world, player, carried) = carrying_player();
    handle_useup(
        &mut world,
        &vec![UseUpShotEvent {
            carrier_entity: player,
            carried_ammunition_entity: carried,
            eject_direction: Vec3::new(2 * UNIT, UNIT, 5 * UNIT),
        }],
    );
    assert_eq!(world.get(player).unwrap().can_carry.unwrap().carries, None);
    assert_eq!(
        world.apply_commands(),
        vec![Command::Eject {
            entity: carried,
            velocity: Velocity {
                linvel: Vec2 { x: 6 * UNIT, y: 23 * UNIT },
                angvel: -20 * UNIT,
            },
        }]
    );
    assert!(world.get(carried).unwrap().flying_seed.is_some());
}

#[test]
fn ammunition_with_more_shots_shrinks_and_stays() {
    let (mut world, player, carried) = carrying_player();
    let mut ammunition = world.get(carried).unwrap();
    ammunition.carried_ammunition = Some(CarriedAmmunition { remaining_shots: 3 });
    world.put(carried, ammunition);
    let use_up = UseUpShotEvent {
        carrier_entity: player,
        carried_ammunition_entity: carried,
        eject_direction: Vec3::new(UNIT, 0, 0),
    };
    handle_useup(&mut world, &vec![use_up, use_up]);
    let after = world.get(carried).unwrap();
    assert_eq!(after.carried_ammunition, Some(CarriedAmmunition { remaining_shots: 1 }));
    assert_eq!(after.scale, 300_000);
    assert_eq!(world.get(player).unwrap().can_carry.unwrap().carries, Some(carried));
    assert!(world.apply_commands().is_empty());
    // Spent ammunition is not used up again.
    handle_useup(&mut world, &vec![use_up, use_up]);
    assert_eq!(world.get(carried).unwrap().scale, 200_000);
    assert_eq!(world.apply_commands().len(), 1);
}

#[test]
fn a_shot_needs_a_finished_cooldown_and_ammunition() {
    let mut world = World::new();
    let player = populate_player(&mut world, Vec3::new(0, 0, 0));
    world.apply_commands();
    let shot = vec![ShootEvent { shooter_entity: player, direction: Vec3::new(UNIT, 0, 0) }];
    // Nothing carried.
    assert!(apply_shooting(&mut world, &shot).is_empty());
    assert!(world.apply_commands().is_empty());
    // Nobody there.
    let nobody = vec![ShootEvent { shooter_entity: 404, direction: Vec3::new(UNIT, 0, 0) }];
    assert!(apply_shooting(&mut world, &nobody).is_empty());

    let (mut world, player, _carried) = carrying_player();
    let mut cooling = world.get(player).unwrap();
    cooling.can_shoot = Some(CanShoot { cooldown: Countdown { duration: 1_000_000, elapsed: 999_999 } });
    world.put(player, cooling);
    let shot = vec![ShootEvent { shooter_entity: player, direction: Vec3::new(UNIT, 0, 0) }];
    assert!(apply_shooting(&mut world, &shot).is_empty());
    assert!(world.apply_commands().is_empty());
}

#[test]
fn the_first_shot_is_immediate_and_the_second_waits() {
    let (mut world, player, carried) = carrying_player();
    assert!(CanShoot::default().cooldown.finished());
    let shot = ShootEvent { shooter_entity: player, direction: Vec3::new(0, UNIT, 0) };
    let raised = apply_shooting(&mut world, &vec![shot, shot]);
    assert_eq!(
        raised,
        vec![UseUpShotEvent {
            carrier_entity: player,
            carried_ammunition_entity: carried,
            eject_direction: Vec3::new(0, -UNIT, 0),
        }]
    );
    let commands = world.apply_commands();
    assert_eq!(commands.len(), 1);
    match commands[0] {
        Command::Spawn { actor } => {
            assert_eq!(actor.position, Vec3::new(0, UNIT, 0));
            assert_eq!(
                actor.velocity,
                Some(Velocity { linvel: Vec2 { x: 0, y: 20 * UNIT }, angvel: 0 })
            );
            assert_eq!(actor.bullet.unwrap().timeout, Countdown { duration: 20_000_000, elapsed: 0 });
            assert!(actor.belongs_to_level.is_none());
        }
        _ => panic!("a bullet is created"),
    }
}

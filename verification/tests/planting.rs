use gardening_gun::math::{Vec3, UNIT};
use gardening_gun::planting::{
    apply_growing, initiate_planting, FertileGround, FlyingSeed, Growing, PlantType,
    FULL_GROWN_FROM,
};
use gardening_gun::utils::{CollisionEvent, CollisionEventFlags};
use gardening_gun::world::{Actor, Command, World};

fn contact(a: u64, b: u64, sensor: bool) -> CollisionEvent {
    CollisionEvent::Started(a, b, CollisionEventFlags { sensor, removed: false })
}

fn seedling(world: &mut World, scale: i64) -> u64 {
    let mut plant = Actor::bare(0, Vec3::new(0, 0, 0));
    plant.scale = scale;
    plant.growing = Some(Growing);
    let id = world.spawn(plant);
    world.apply_commands();
    id
}

#[test]
fn a_seed_takes_root_on_fertile_ground_only() {
    let mut world = World::new();
    let mut seed = Actor::bare(0, Vec3::new(3 * UNIT, 2 * UNIT, UNIT));
    seed.flying_seed = Some(FlyingSeed);
    seed.plant_type = Some(PlantType::Tree);
    let seed = world.spawn(seed);
    let mut ground = Actor::bare(0, Vec3::new(0, 0, 0));
    ground.fertile_ground = Some(FertileGround);
    let ground = world.spawn(ground);
    let rock = world.spawn(Actor::bare(0, Vec3::new(0, 0, 0)));
    let mut untyped = Actor::bare(0, Vec3::new(0, 0, 0));
    untyped.flying_seed = Some(FlyingSeed);
    let untyped = world.spawn(untyped);
    world.apply_commands();

    initiate_planting(
        &mut world,
        &vec![contact(seed, rock, true), contact(untyped, ground, true), contact(ground, rock, false)],
    );
    assert!(world.apply_commands().is_empty());

    initiate_planting(&mut world, &vec![contact(seed, ground, true)]);
    let commands = world.apply_commands();
    assert_eq!(commands.len(), 2);
    assert_eq!(commands[0], Command::Despawn { entity: seed });
    match commands[1] {
        Command::Spawn { actor } => {
            assert_eq!(actor.position, Vec3::new(3 * UNIT, 3 * UNIT, UNIT));
            assert_eq!(actor.scale, 100_000);
            assert_eq!(actor.growing, Some(Growing));
            assert_eq!(actor.plant_type, Some(PlantType::Tree));
            assert!(actor.belongs_to_level.is_some());
        }
        _ => panic!("a plant is created"),
    }
}

#[test]
fn a_plant_grows_by_twice_the_time_until_it_is_full_grown() {
    let mut world = World::new();
    let plant = seedling(&mut world, 100_000);
    let mut scale = 100_000;
    for _ in 0..4 {
        apply_growing(&mut world, 50_000);
        let after = world.get(plant).unwrap().scale;
        assert_eq!(after, scale + 100_000);
        assert!(after > scale);
        scale = after;
        assert_eq!(
            world.apply_commands(),
            vec![Command::Translate { entity: plant, by: Vec3::new(0, 100_000, 0) }]
        );
    }
    assert_eq!(scale, 500_000);
    // The next frame takes the plant past the length of one unit.
    apply_growing(&mut world, 50_000);
    assert_eq!(world.get(plant).unwrap().scale, UNIT);
    assert_eq!(
        world.apply_commands(),
        vec![
            Command::Translate { entity: plant, by: Vec3::new(0, 100_000, 0) },
            Command::RemoveGrowing { entity: plant },
        ]
    );
    assert!(world.get(plant).unwrap().growing.is_none());
    for _ in 0..3 {
        apply_growing(&mut world, 50_000);
        assert_eq!(world.get(plant).unwrap().scale, UNIT);
        assert!(world.apply_commands().is_empty());
    }
}

#[test]
fn full_size_begins_where_the_scale_vector_is_one_unit_long() {
    assert_eq!(FULL_GROWN_FROM, 577_351);
    let mut world = World::new();
    let below = seedling(&mut world, 0);
    apply_growing(&mut world, 288_675);
    assert_eq!(world.get(below).unwrap().scale, 577_350);
    let mut world = World::new();
    let reached = seedling(&mut world, 1);
    apply_growing(&mut world, 288_675);
    assert_eq!(world.get(reached).unwrap().scale, UNIT);
    let mut world = World::new();
    let still = seedling(&mut world, 100_000);
    apply_growing(&mut world, 0);
    assert_eq!(world.get(still).unwrap().scale, 100_000);
}

#[test]
fn what_does_not_grow_is_not_touched() {
    let mut world = World::new();
    let mut rock = Actor::bare(0, Vec3::new(0, 0, 0));
    rock.scale = 300_000;
    let rock = world.spawn(rock);
    world.apply_commands();
    apply_growing(&mut world, 1_000_000);
    assert_eq!(world.get(rock).unwrap().scale, 300_000);
    assert!(world.apply_commands().is_empty());
}

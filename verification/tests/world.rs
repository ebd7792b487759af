use gardening_gun::math::{Vec3, COORD_MAX, UNIT};
use gardening_gun::planting::FlyingSeed;
use gardening_gun::world::{Actor, BelongsToLevel, Command, Velocity, World};
use gardening_gun::math::Vec2;
use gardening_gun::AppState;

#[test]
fn spawned_entity_exists_after_commands_are_applied() {
    let mut world = World::new();
    let id = world.spawn(Actor::bare(0, Vec3::new(1, 2, 3)));
    assert_eq!(id, 0);
    assert!(!world.contains(id));
    let commands = world.apply_commands();
    assert_eq!(commands.len(), 1);
    assert!(matches!(commands[0], Command::Spawn { .. }));
    assert!(world.contains(id));
    assert_eq!(world.get(id).unwrap().position, Vec3::new(1, 2, 3));
    assert_eq!(world.get(id).unwrap().scale, UNIT);
}

#[test]
fn ids_are_handed_out_in_order_and_never_again() {
    let mut world = World::new();
    let first = world.spawn(Actor::bare(99, Vec3::new(0, 0, 0)));
    let second = world.spawn(Actor::bare(99, Vec3::new(0, 0, 0)));
    assert_eq!((first, second), (0, 1));
    world.apply_commands();
    world.push_command(Command::Despawn { entity: second });
    world.apply_commands();
    let third = world.spawn(Actor::bare(0, Vec3::new(0, 0, 0)));
    assert_eq!(third, 2);
    world.apply_commands();
    assert_eq!(world.index_of(first), Some(0));
    assert_eq!(world.index_of(second), None);
    assert_eq!(world.index_of(third), Some(1));
}

#[test]
fn despawn_removes_the_entity_and_what_descends_from_it() {
    let mut world = World::new();
    let root = world.spawn(Actor::bare(0, Vec3::new(0, 0, 0)));
    let mut child = Actor::bare(0, Vec3::new(0, 0, 0));
    child.parent = Some(root);
    let child = world.spawn(child);
    let mut grandchild = Actor::bare(0, Vec3::new(0, 0, 0));
    grandchild.parent = Some(child);
    let grandchild = world.spawn(grandchild);
    let other = world.spawn(Actor::bare(0, Vec3::new(0, 0, 0)));
    let mut orphan = Actor::bare(0, Vec3::new(0, 0, 0));
    orphan.parent = Some(other);
    let orphan = world.spawn(orphan);
    world.apply_commands();
    world.push_command(Command::Despawn { entity: root });
    world.apply_commands();
    assert!(!world.contains(root));
    assert!(!world.contains(child));
    assert!(!world.contains(grandchild));
    assert!(world.contains(other));
    assert!(world.contains(orphan));
    // Removing what is not there changes nothing.
    world.push_command(Command::Despawn { entity: root });
    world.apply_commands();
    assert_eq!(world.actors.len(), 2);
}

#[test]
fn a_command_made_before_its_entity_exists_finds_it_when_applied() {
    let mut world = World::new();
    let id = world.spawn(Actor::bare(0, Vec3::new(0, 0, 0)));
    let velocity = Velocity { linvel: Vec2 { x: 1, y: 2 }, angvel: 3 };
    world.push_command(Command::Eject { entity: id, velocity });
    world.apply_commands();
    let seed = world.get(id).unwrap();
    assert_eq!(seed.flying_seed, Some(FlyingSeed));
    assert_eq!(seed.velocity, Some(velocity));
    assert_eq!(seed.parent, None);
}

#[test]
fn positions_out_of_range_are_refused() {
    let mut world = World::new();
    let id = world.spawn(Actor::bare(0, Vec3::new(0, 0, 0)));
    world.apply_commands();
    assert!(world.set_position(id, Vec3::new(COORD_MAX, -COORD_MAX, 0)));
    assert_eq!(world.get(id).unwrap().position, Vec3::new(COORD_MAX, -COORD_MAX, 0));
    assert!(!world.set_position(id, Vec3::new(COORD_MAX + 1, 0, 0)));
    assert_eq!(world.get(id).unwrap().position, Vec3::new(COORD_MAX, -COORD_MAX, 0));
    assert!(!world.set_position(id + 1, Vec3::new(0, 0, 0)));
    assert!(Vec3::new(0, 0, COORD_MAX).is_in_bounds());
    assert!(!Vec3::new(0, 0, -COORD_MAX - 1).is_in_bounds());
    assert_eq!(
        Vec3::new(COORD_MAX + 5, -COORD_MAX - 5, 7).clamp(),
        Vec3::new(COORD_MAX, -COORD_MAX, 7)
    );
}

#[test]
fn the_state_asked_for_is_taken_once() {
    let mut world = World::new();
    assert_eq!(world.take_next_state(), None);
    world.next_state = Some(AppState::GameOver);
    assert_eq!(world.take_next_state(), Some(AppState::GameOver));
    assert_eq!(world.take_next_state(), None);
}

#[test]
fn removing_marks_keeps_the_rest_of_the_entity() {
    let mut world = World::new();
    let mut actor = Actor::bare(0, Vec3::new(4, 5, 6));
    actor.belongs_to_level = Some(BelongsToLevel);
    actor.growing = Some(gardening_gun::planting::Growing);
    actor.destroys_bullets = Some(gardening_gun::shooting::DestroysBullets);
    let id = world.spawn(actor);
    world.push_command(Command::RemoveGrowing { entity: id });
    world.push_command(Command::RemoveDestroysBullets { entity: id });
    world.push_command(Command::Translate { entity: id, by: Vec3::new(1, 1, 1) });
    world.apply_commands();
    let after = world.get(id).unwrap();
    assert!(after.growing.is_none());
    assert!(after.destroys_bullets.is_none());
    assert_eq!(after.belongs_to_level, Some(BelongsToLevel));
    assert_eq!(after.position, Vec3::new(4, 5, 6));
}

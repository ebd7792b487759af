use gardening_gun::gate::{
    edit_gate_z_depth, initiate_gate_opening, pass_through_gate, populate_gate, Gate,
    KeepGatesClosedWhenAlive,
};
use gardening_gun::goblin::populate_goblin;
use gardening_gun::killing::{handle_killing, KillEvent, Killable};
use gardening_gun::math::{Vec3, UNIT};
use gardening_gun::player::populate_player;
use gardening_gun::utils::{CollisionEvent, CollisionEventFlags};
use gardening_gun::world::{Actor, World};
use gardening_gun::AppState;

#[test]
fn one_living_keeper_keeps_every_gate_closed() {
    let mut world = World::new();
    let first = populate_goblin(&mut world, Vec3::new(0, 0, 0));
    let second = populate_goblin(&mut world, Vec3::new(0, 0, 0));
    let near = populate_gate(&mut world, Vec3::new(0, 0, 0));
    let far = populate_gate(&mut world, Vec3::new(0, 0, 0));
    world.apply_commands();
    handle_killing(&mut world, &vec![KillEvent { entity_to_kill: first }]);
    world.apply_commands();
    initiate_gate_opening(&mut world);
    assert!(world.apply_commands().is_empty());
    assert_eq!(world.get(near).unwrap().gate, Some(Gate { is_open: false }));
    handle_killing(&mut world, &vec![KillEvent { entity_to_kill: second }]);
    world.apply_commands();
    initiate_gate_opening(&mut world);
    assert_eq!(world.apply_commands().len(), 2);
    assert_eq!(world.get(near).unwrap().gate, Some(Gate { is_open: true }));
    assert_eq!(world.get(far).unwrap().gate, Some(Gate { is_open: true }));
}

#[test]
fn an_open_gate_stays_open_when_a_keeper_comes() {
    let mut world = World::new();
    let gate = populate_gate(&mut world, Vec3::new(0, 0, 0));
    world.apply_commands();
    initiate_gate_opening(&mut world);
    assert_eq!(world.apply_commands().len(), 1);
    populate_goblin(&mut world, Vec3::new(0, 0, 0));
    world.apply_commands();
    initiate_gate_opening(&mut world);
    assert!(world.apply_commands().is_empty());
    assert_eq!(world.get(gate).unwrap().gate, Some(Gate { is_open: true }));
}

#[test]
fn a_keeper_that_cannot_die_does_not_keep_the_gates() {
    let mut world = World::new();
    let mut statue = Actor::bare(0, Vec3::new(0, 0, 0));
    statue.keep_gates_closed = Some(KeepGatesClosedWhenAlive);
    world.spawn(statue);
    let mut bystander = Actor::bare(0, Vec3::new(0, 0, 0));
    bystander.killable = Some(Killable::default());
    world.spawn(bystander);
    let gate = populate_gate(&mut world, Vec3::new(0, 0, 0));
    world.apply_commands();
    initiate_gate_opening(&mut world);
    assert_eq!(world.get(gate).unwrap().gate, Some(Gate { is_open: true }));
}

#[test]
fn only_a_player_at_an_open_gate_completes_the_level() {
    let mut world = World::new();
    let player = populate_player(&mut world, Vec3::new(0, 0, 0));
    let goblin = populate_goblin(&mut world, Vec3::new(0, 0, 0));
    let gate = populate_gate(&mut world, Vec3::new(0, 0, 0));
    world.apply_commands();
    let sensor = CollisionEventFlags { sensor: true, removed: false };
    let solid = CollisionEventFlags { sensor: false, removed: false };
    pass_through_gate(&mut world, &vec![CollisionEvent::Started(player, gate, sensor)]);
    assert_eq!(world.next_state, None);
    handle_killing(&mut world, &vec![KillEvent { entity_to_kill: goblin }]);
    initiate_gate_opening(&mut world);
    world.apply_commands();
    pass_through_gate(
        &mut world,
        &vec![
            CollisionEvent::Started(goblin, gate, sensor),
            CollisionEvent::Started(player, gate, solid),
            CollisionEvent::Stopped(player, gate, sensor),
        ],
    );
    assert_eq!(world.next_state, None);
    pass_through_gate(&mut world, &vec![CollisionEvent::Started(player, gate, sensor)]);
    assert_eq!(world.next_state, Some(AppState::LevelCompleted));
}

#[test]
fn an_edited_gate_stands_half_a_unit_back() {
    assert_eq!(
        edit_gate_z_depth(Vec3::new(3 * UNIT, -UNIT, 7)),
        Vec3::new(3 * UNIT, -UNIT, -500_000)
    );
}

#[test]
fn a_gate_without_animations_opens_and_asks_for_its_opening() {
    let mut world = World::new();
    let mut bare = Actor::bare(0, Vec3::new(0, 0, 0));
    bare.gate = Some(Gate { is_open: false });
    let bare = world.spawn(bare);
    world.apply_commands();
    initiate_gate_opening(&mut world);
    assert_eq!(world.get(bare).unwrap().gate, Some(Gate { is_open: true }));
    let commands = world.apply_commands();
    assert_eq!(commands.len(), 1);
    match commands[0] {
        gardening_gun::world::Command::PlayAnimation { owner, animation } => {
            assert_eq!(owner, bare);
            assert!(animation.required);
            assert_eq!(animation.mode, gardening_gun::animating::PlayMode::Restart);
        }
        _ => panic!("the opening is played"),
    }
}

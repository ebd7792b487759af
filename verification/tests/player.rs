use gardening_gun::animating::{
    detect_animation_players, set_initial_animation, Animation, AnimationClipName,
    AnimationPlayerName, AnimationsOwner, InitialAnimation, PlayMode,
};
use gardening_gun::goblin::populate_goblin;
use gardening_gun::killing::{handle_killing, KillEvent};
use gardening_gun::math::{Vec3, UNIT};
use gardening_gun::player::{
    animate_player, populate_player, the_player, AnimatingOutput, PlayerAnimationState,
};
use gardening_gun::player_controls::{apply_controls, PlayerInput, ShootEvent};
use gardening_gun::shooting::{Countdown, COOLDOWN};
use gardening_gun::world::{Actor, Command, World};

fn armature(clip: AnimationClipName, mode: PlayMode, speed: i64) -> Animation {
    Animation { player: AnimationPlayerName::Armature, clip, mode, speed, required: false }
}

#[test]
fn the_avatar_comes_alive_idle_and_ready_to_shoot() {
    let mut world = World::new();
    let player = populate_player(&mut world, Vec3::new(UNIT, 2 * UNIT, 0));
    world.apply_commands();
    let avatar = world.get(player).unwrap();
    assert!(avatar.is_player.is_some());
    assert!(avatar.can_pick.is_some());
    assert!(avatar.killable.unwrap().still_alive);
    assert_eq!(avatar.can_carry.unwrap().carries, None);
    assert_eq!(avatar.can_shoot.unwrap().cooldown, Countdown { duration: COOLDOWN, elapsed: COOLDOWN });
    assert_eq!(avatar.controls.unwrap().desired_forward, Vec3::new(UNIT, 0, 0));
    assert_eq!(avatar.apply_rotation_to_child.unwrap().0, player + 1);
    assert_eq!(world.get(player + 1).unwrap().parent, Some(player));
    assert_eq!(the_player(&world), Some(avatar));
}

#[test]
fn the_goblin_comes_alive_dancing_and_in_the_way() {
    let mut world = World::new();
    let goblin = populate_goblin(&mut world, Vec3::new(0, 0, 0));
    world.apply_commands();
    let actor = world.get(goblin).unwrap();
    assert!(actor.is_goblin.is_some());
    assert!(actor.killable.unwrap().still_alive);
    assert!(actor.destroys_bullets.is_some());
    assert!(actor.keep_gates_closed.is_some());
    assert_eq!(
        actor.initial_animation,
        Some(InitialAnimation::new(AnimationPlayerName::Armature, AnimationClipName::Dance))
    );
    assert_eq!(the_player(&world), None);
}

#[test]
fn a_state_that_begins_is_played_and_running_adjusts_its_speed() {
    let mut world = World::new();
    let player = populate_player(&mut world, Vec3::new(0, 0, 0));
    world.apply_commands();
    let report = |jumping: bool, running_speed: i64| {
        vec![AnimatingOutput { entity: player, jumping, running_speed }]
    };
    animate_player(&mut world, &report(false, 10_000));
    assert_eq!(
        world.apply_commands(),
        vec![Command::PlayAnimation {
            owner: player,
            animation: armature(AnimationClipName::Standing, PlayMode::Transition, UNIT),
        }]
    );
    animate_player(&mut world, &report(false, 0));
    assert!(world.apply_commands().is_empty());
    animate_player(&mut world, &report(false, 5 * UNIT));
    assert_eq!(
        world.apply_commands(),
        vec![Command::PlayAnimation {
            owner: player,
            animation: armature(AnimationClipName::Running, PlayMode::Repeat, 500_000),
        }]
    );
    assert_eq!(
        world.get(player).unwrap().animating_state.unwrap().state,
        Some(PlayerAnimationState::Running(500_000))
    );
    animate_player(&mut world, &report(false, 6 * UNIT));
    assert_eq!(
        world.apply_commands(),
        vec![Command::SetAnimationSpeed {
            owner: player,
            player: AnimationPlayerName::Armature,
            speed: 600_000,
        }]
    );
    animate_player(&mut world, &report(true, 6 * UNIT));
    assert_eq!(
        world.apply_commands(),
        vec![Command::PlayAnimation {
            owner: player,
            animation: armature(AnimationClipName::Jumping, PlayMode::Once, 3 * UNIT),
        }]
    );
    animate_player(&mut world, &report(true, 0));
    assert!(world.apply_commands().is_empty());
    // The dead are shown their death and nothing else.
    handle_killing(&mut world, &vec![KillEvent { entity_to_kill: player }]);
    world.apply_commands();
    animate_player(&mut world, &report(false, 0));
    assert!(world.apply_commands().is_empty());
    assert_eq!(
        world.get(player).unwrap().animating_state.unwrap().state,
        Some(PlayerAnimationState::Jumping)
    );
}

#[test]
fn the_avatar_turns_with_the_stick_and_shoots_where_it_faces() {
    let mut world = World::new();
    let player = populate_player(&mut world, Vec3::new(0, 0, 0));
    world.apply_commands();
    let input = |run: Option<i64>, jump: i64, shoot: bool| PlayerInput { entity: player, run, jump, shoot };
    let shots = apply_controls(&mut world, &vec![input(Some(-100_001), 0, true)]);
    assert_eq!(shots, vec![ShootEvent { shooter_entity: player, direction: Vec3::new(-UNIT, 0, 0) }]);
    let controls = world.get(player).unwrap().controls.unwrap();
    assert_eq!(controls.desired_velocity, Vec3::new(-100_001, 0, 0));
    assert_eq!(controls.desired_forward, Vec3::new(-UNIT, 0, 0));
    assert_eq!(controls.jump, None);
    // A stick that is barely pushed does not turn the avatar.
    let shots = apply_controls(&mut world, &vec![input(Some(100_000), 700_000, true), input(None, 0, false)]);
    assert_eq!(shots, vec![ShootEvent { shooter_entity: player, direction: Vec3::new(-UNIT, 0, 0) }]);
    let controls = world.get(player).unwrap().controls.unwrap();
    assert_eq!(controls.desired_velocity, Vec3::new(0, 0, 0));
    assert_eq!(controls.desired_forward, Vec3::new(-UNIT, 0, 0));
    let shots = apply_controls(&mut world, &vec![input(Some(UNIT), 700_000, false)]);
    assert!(shots.is_empty());
    let controls = world.get(player).unwrap().controls.unwrap();
    assert_eq!(controls.desired_forward, Vec3::new(UNIT, 0, 0));
    assert_eq!(controls.jump, Some(700_000));
    // Input for what cannot be steered is dropped.
    assert!(apply_controls(&mut world, &vec![PlayerInput { entity: player + 1, run: None, jump: 0, shoot: true }]).is_empty());
}

#[test]
fn an_animation_player_belongs_to_the_nearest_owner_above_it() {
    let mut world = World::new();
    let mut owner = Actor::bare(0, Vec3::new(0, 0, 0));
    owner.animations_owner = Some(AnimationsOwner);
    let top = world.spawn(owner);
    let mut scene = Actor::bare(0, Vec3::new(0, 0, 0));
    scene.parent = Some(top);
    let scene = world.spawn(scene);
    let mut inner = Actor::bare(0, Vec3::new(0, 0, 0));
    inner.parent = Some(scene);
    inner.animations_owner = Some(AnimationsOwner);
    let inner = world.spawn(inner);
    let mut armature = Actor::bare(0, Vec3::new(0, 0, 0));
    armature.parent = Some(inner);
    let armature = world.spawn(armature);
    let loose = world.spawn(Actor::bare(0, Vec3::new(0, 0, 0)));
    world.apply_commands();
    assert_eq!(detect_animation_players(&world, armature), Some(inner));
    assert_eq!(detect_animation_players(&world, inner), Some(top));
    assert_eq!(detect_animation_players(&world, scene), Some(top));
    assert_eq!(detect_animation_players(&world, top), None);
    assert_eq!(detect_animation_players(&world, loose), None);
    assert_eq!(detect_animation_players(&world, 404), None);
}

#[test]
fn the_initial_animation_begins_once_it_is_there() {
    let mut world = World::new();
    let first = populate_goblin(&mut world, Vec3::new(0, 0, 0));
    let second = populate_goblin(&mut world, Vec3::new(0, 0, 0));
    world.apply_commands();
    set_initial_animation(&mut world, &vec![]);
    assert!(world.apply_commands().is_empty());
    set_initial_animation(&mut world, &vec![second, 404]);
    assert_eq!(
        world.apply_commands(),
        vec![
            Command::PlayAnimation {
                owner: second,
                animation: armature(AnimationClipName::Dance, PlayMode::Repeat, UNIT),
            },
            Command::RemoveInitialAnimation { entity: second },
        ]
    );
    assert!(world.get(second).unwrap().initial_animation.is_none());
    assert!(world.get(first).unwrap().initial_animation.is_some());
    set_initial_animation(&mut world, &vec![second, first]);
    assert_eq!(world.apply_commands().len(), 2);
    assert_eq!(AnimationPlayerName::GateOpener.name(), "GateOpener");
    assert_eq!(AnimationPlayerName::Armature.name(), "Armature");
    assert_eq!(AnimationClipName::Death.name(), "Death");
    assert_eq!(AnimationClipName::Open.name(), "Open");
    assert_eq!(gardening_gun::planting::PlantType::Tree.scene_name(), "Tree.glb#Scene0");
}

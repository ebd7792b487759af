//! The player's avatar.
use vstd::prelude::*;
use crate::ammunition::{CanCarry, CanPick};
use crate::animating::{
    Animation, AnimationClipName, AnimationPlayerName, AnimationsOwner, ApplyRotationToChild,
    PlayMode,
};
use crate::killing::Killable;
use crate::math::{Vec2, Vec3, UNIT};
use crate::player_controls::PlatformerControls;
use crate::shooting::{CanShoot, Countdown, COOLDOWN};
use crate::world::{Actor, BelongsToLevel, Command, Velocity, World, WorldView};

verus! {

/// The speed from which on the avatar is shown running.
pub const RUNNING_FROM: i64 = 10_000;

/// The speed at which the jump is played, in millionths of its own speed.
pub const JUMPING_SPEED: i64 = 3_000_000;

/// Marks the player's avatar.
#[derive(Clone, Copy, Debug, PartialEq, Eq, Structural)]
pub struct IsPlayer;

/// What the avatar is shown doing.
#[derive(Clone, Copy, Debug, PartialEq, Eq, Structural)]
pub enum PlayerAnimationState {
    Standing,
    /// Running, with the speed at which the clip is played, in millionths of
    /// its own speed.
    Running(i64),
    Jumping,
}

/// What the avatar was last shown doing, if anything.
#[derive(Clone, Copy, Debug, PartialEq, Eq, Structural)]
pub struct AnimatingState {
    pub state: Option<PlayerAnimationState>,
}

/// What the character controller reports of an avatar whose armature is
/// there: whether it jumps, and how fast it runs, in millionths of a unit a
/// second.
#[derive(Clone, Copy, Debug, PartialEq, Eq, Structural)]
pub struct AnimatingOutput {
    pub entity: u64,
    pub jumping: bool,
    pub running_speed: i64,
}

/// Whether the place `i` holds the only player of `actors`.
pub open spec fn is_only_player(actors: Seq<Actor>, i: int) -> bool {
    &&& 0 <= i < actors.len()
    &&& actors[i].is_player is Some
    &&& forall|j: int| 0 <= j < actors.len() && (#[trigger] actors[j]).is_player is Some ==> j == i
}

/// The player, where there is exactly one.
pub open spec fn single_player(actors: Seq<Actor>) -> Option<Actor> {
    if exists|i: int| is_only_player(actors, i) {
        Some(actors[choose|i: int| is_only_player(actors, i)])
    } else {
        None
    }
}

/// The player, where there is exactly one.
pub fn the_player(world: &World) -> (player: Option<Actor>)
    requires
        world.wf(),
    ensures
        player == single_player(world@.actors),
        player matches Some(actor) ==> actor.wf(),
{
    let mut found: Option<usize> = None;
    let mut many = false;
    let ghost mut first: int = 0;
    let ghost mut second: int = 0;
    let mut i: usize = 0;
    while i < world.actors.len()
        invariant
            i <= world.actors.len(),
            many ==> 0 <= first < second < i && world@.actors[first].is_player is Some
                && world@.actors[second].is_player is Some,
            !many ==> match found {
                Some(f) => f < i && world@.actors[f as int].is_player is Some && forall|j: int|
                    0 <= j < i && (#[trigger] world@.actors[j]).is_player is Some ==> j == f,
                None => forall|j: int| 0 <= j < i ==> (#[trigger] world@.actors[j]).is_player is None,
            },
        decreases world.actors.len() - i,
    {
        if world.actors[i].is_player.is_some() {
            match found {
                Some(f) => {
                    if !many {
                        proof {
                            first = f as int;
                            second = i as int;
                        }
                    }
                    many = true;
                },
                None => {
                    found = Some(i);
                },
            }
        }
        i += 1;
    }
    let ghost actors = world@.actors;
    if many {
        proof {
            assert forall|k: int| !is_only_player(actors, k) by {
                if is_only_player(actors, k) {
                    assert(actors[first].is_player is Some);
                    assert(actors[second].is_player is Some);
                }
            }
        }
        return None;
    }
    match found {
        Some(f) => {
            proof {
                assert(is_only_player(actors, f as int));
                let k = choose|k: int| is_only_player(actors, k);
                assert(actors[f as int].is_player is Some);
                assert(k == f);
                assert(actors[f as int].wf());
            }
            Some(world.actors[f])
        },
        None => {
            proof {
                assert forall|k: int| !is_only_player(actors, k) by {
                    if is_only_player(actors, k) {
                        assert(actors[k].is_player is None);
                    }
                }
            }
            None
        },
    }
}

/// The avatar as it comes with the level: alive, with an empty slot, able to
/// pick, to carry and to shoot at once, facing along the first axis, and
/// shown by the child `model`.
pub open spec fn new_player(position: Vec3, model: u64) -> Actor {
    Actor {
        velocity: Some(Velocity { linvel: Vec2 { x: 0, y: 0 }, angvel: 0 }),
        is_player: Some(IsPlayer),
        can_pick: Some(CanPick),
        can_carry: Some(CanCarry { carries: None }),
        can_shoot: Some(CanShoot { cooldown: Countdown { duration: COOLDOWN, elapsed: COOLDOWN } }),
        killable: Some(Killable { still_alive: true }),
        animations_owner: Some(AnimationsOwner),
        apply_rotation_to_child: Some(ApplyRotationToChild(model)),
        animating_state: Some(AnimatingState { state: None }),
        controls: Some(
            PlatformerControls {
                desired_velocity: Vec3 { x: 0, y: 0, z: 0 },
                desired_forward: Vec3 { x: UNIT, y: 0, z: 0 },
                jump: None,
            },
        ),
        belongs_to_level: Some(BelongsToLevel),
        ..Actor::spec_bare(0, position)
    }
}

/// The child that shows an entity.
pub open spec fn new_model(position: Vec3, owner: u64) -> Actor {
    Actor { parent: Some(owner), ..Actor::spec_bare(0, position) }
}

/// Asks for the avatar at `position`, and for the child that shows it, and
/// hands out the avatar's id. The child gets the id after it.
pub fn populate_player(world: &mut World, position: Vec3) -> (id: u64)
    requires
        old(world).wf(),
        old(world)@.has_room(2),
        position.in_bounds(),
    ensures
        final(world).wf(),
        id == old(world)@.next_id,
        final(world)@ == old(world)@.with_spawn(new_player(position, (id + 1) as u64)).with_spawn(
            new_model(position, id),
        ),
{
    let id = world.next_id;
    let mut player = Actor::bare(0, position);
    player.velocity = Some(Velocity { linvel: Vec2 { x: 0, y: 0 }, angvel: 0 });
    player.is_player = Some(IsPlayer);
    player.can_pick = Some(CanPick);
    player.can_carry = Some(CanCarry::default());
    player.can_shoot = Some(CanShoot::default());
    player.killable = Some(Killable::default());
    player.animations_owner = Some(AnimationsOwner);
    player.apply_rotation_to_child = Some(ApplyRotationToChild(id + 1));
    player.animating_state = Some(AnimatingState { state: None });
    player.controls = Some(
        PlatformerControls {
            desired_velocity: Vec3 { x: 0, y: 0, z: 0 },
            desired_forward: Vec3 { x: UNIT, y: 0, z: 0 },
            jump: None,
        },
    );
    player.belongs_to_level = Some(BelongsToLevel);
    world.spawn(player);
    let mut model = Actor::bare(0, position);
    model.parent = Some(id);
    world.spawn(model);
    id
}

/// What an avatar is to be shown doing: jumping where it jumps; else running
/// where it runs faster than a hundredth of a unit a second, the clip played at
/// a tenth of that speed; else standing.
pub open spec fn shown(jumping: bool, running_speed: i64) -> PlayerAnimationState {
    if jumping {
        PlayerAnimationState::Jumping
    } else if RUNNING_FROM < running_speed {
        PlayerAnimationState::Running((running_speed / 10) as i64)
    } else {
        PlayerAnimationState::Standing
    }
}

/// Whether two states are of the same kind, whatever their speed.
pub open spec fn same_kind(first: PlayerAnimationState, second: PlayerAnimationState) -> bool {
    match (first, second) {
        (PlayerAnimationState::Standing, PlayerAnimationState::Standing) => true,
        (PlayerAnimationState::Running(_), PlayerAnimationState::Running(_)) => true,
        (PlayerAnimationState::Jumping, PlayerAnimationState::Jumping) => true,
        _ => false,
    }
}

/// Whether the state goes on from what was shown before.
pub open spec fn maintained(previous: Option<PlayerAnimationState>, state: PlayerAnimationState) -> bool {
    previous matches Some(before) && same_kind(before, state)
}

/// The clip that begins a state: standing is blended into, running is
/// repeated at its speed, and the jump is played at three times its speed.
/// None of them is required.
pub open spec fn animation_of(state: PlayerAnimationState) -> Animation {
    match state {
        PlayerAnimationState::Standing => Animation {
            player: AnimationPlayerName::Armature,
            clip: AnimationClipName::Standing,
            mode: PlayMode::Transition,
            speed: UNIT,
            required: false,
        },
        PlayerAnimationState::Running(speed) => Animation {
            player: AnimationPlayerName::Armature,
            clip: AnimationClipName::Running,
            mode: PlayMode::Repeat,
            speed,
            required: false,
        },
        PlayerAnimationState::Jumping => Animation {
            player: AnimationPlayerName::Armature,
            clip: AnimationClipName::Jumping,
            mode: PlayMode::Once,
            speed: JUMPING_SPEED,
            required: false,
        },
    }
}

/// What showing `state` after `previous` asks of the engine: where the state
/// goes on, only running adjusts its speed; where it begins, its clip is
/// played.
pub open spec fn directive(
    owner: u64,
    previous: Option<PlayerAnimationState>,
    state: PlayerAnimationState,
) -> Seq<Command> {
    if maintained(previous, state) {
        match state {
            PlayerAnimationState::Running(speed) => seq![
                Command::SetAnimationSpeed { owner, player: AnimationPlayerName::Armature, speed },
            ],
            _ => Seq::empty(),
        }
    } else {
        seq![Command::PlayAnimation { owner, animation: animation_of(state) }]
    }
}

/// The avatar that a report is about and what it was last shown doing, where
/// it is animated: it exists, is alive, and owns animations.
pub open spec fn animated(world: WorldView, output: AnimatingOutput) -> Option<(Actor, AnimatingState)> {
    match world.get(output.entity) {
        Some(actor) => match (actor.animating_state, actor.killable, actor.animations_owner) {
            (Some(animating), Some(killable), Some(_)) => if killable.still_alive {
                Some((actor, animating))
            } else {
                None
            },
            _ => None,
        },
        None => None,
    }
}

/// The world after one report of the character controller.
pub open spec fn animated_by(world: WorldView, output: AnimatingOutput) -> WorldView {
    match animated(world, output) {
        Some((actor, animating)) => {
            let state = shown(output.jumping, output.running_speed);
            let after = world.with_actor(
                actor.id,
                Actor { animating_state: Some(AnimatingState { state: Some(state) }), ..actor },
            );
            WorldView {
                commands: after.commands + directive(actor.id, animating.state, state),
                ..after
            }
        },
        None => world,
    }
}

/// The world after the reports of a frame, handled in order.
pub open spec fn after_animating(world: WorldView, outputs: Seq<AnimatingOutput>) -> WorldView
    decreases outputs.len(),
{
    if outputs.len() == 0 {
        world
    } else {
        animated_by(after_animating(world, outputs.drop_last()), outputs.last())
    }
}

/// Handles one report of the character controller.
fn animate(world: &mut World, output: AnimatingOutput)
    requires
        old(world).wf(),
    ensures
        final(world).wf(),
        final(world)@ == animated_by(old(world)@, output),
        final(world)@.next_id == old(world)@.next_id,
{
    let mut actor = match world.get(output.entity) {
        Some(actor) => actor,
        None => {
            return ;
        },
    };
    let (animating, killable) = match (actor.animating_state, actor.killable, actor.animations_owner) {
        (Some(animating), Some(killable), Some(_)) => (animating, killable),
        _ => {
            return ;
        },
    };
    if !killable.still_alive {
        // The death is played by the kill.
        return ;
    }
    let state = if output.jumping {
        PlayerAnimationState::Jumping
    } else if RUNNING_FROM < output.running_speed {
        PlayerAnimationState::Running(output.running_speed / 10)
    } else {
        PlayerAnimationState::Standing
    };
    let is_same = match animating.state {
        Some(before) => match (before, state) {
            (PlayerAnimationState::Standing, PlayerAnimationState::Standing) => true,
            (PlayerAnimationState::Running(_), PlayerAnimationState::Running(_)) => true,
            (PlayerAnimationState::Jumping, PlayerAnimationState::Jumping) => true,
            _ => false,
        },
        None => false,
    };
    actor.animating_state = Some(AnimatingState { state: Some(state) });
    world.put(actor.id, actor);
    let ghost base = world@.commands;
    if is_same {
        match state {
            PlayerAnimationState::Running(speed) => {
                world.push_command(
                    Command::SetAnimationSpeed {
                        owner: actor.id,
                        player: AnimationPlayerName::Armature,
                        speed,
                    },
                );
            },
            _ => {},
        }
    } else {
        let animation = match state {
            PlayerAnimationState::Standing => Animation {
                player: AnimationPlayerName::Armature,
                clip: AnimationClipName::Standing,
                mode: PlayMode::Transition,
                speed: UNIT,
                required: false,
            },
            PlayerAnimationState::Running(speed) => Animation {
                player: AnimationPlayerName::Armature,
                clip: AnimationClipName::Running,
                mode: PlayMode::Repeat,
                speed,
                required: false,
            },
            PlayerAnimationState::Jumping => Animation {
                player: AnimationPlayerName::Armature,
                clip: AnimationClipName::Jumping,
                mode: PlayMode::Once,
                speed: JUMPING_SPEED,
                required: false,
            },
        };
        world.push_command(Command::PlayAnimation { owner: actor.id, animation });
    }
    assert(world@.commands =~= base + directive(actor.id, animating.state, state));
}

/// Shows every living avatar doing what the character controller reports of
/// it: a state that begins has its clip played, and running that goes on has
/// its speed adjusted.
pub fn animate_player(world: &mut World, outputs: &Vec<AnimatingOutput>)
    requires
        old(world).wf(),
    ensures
        final(world).wf(),
        final(world)@ == after_animating(old(world)@, outputs@),
        final(world)@.next_id == old(world)@.next_id,
{
    let mut i: usize = 0;
    assert(outputs@.take(0) =~= Seq::<AnimatingOutput>::empty());
    while i < outputs.len()
        invariant
            i <= outputs.len(),
            world.wf(),
            world@.next_id == old(world)@.next_id,
            world@ == after_animating(old(world)@, outputs@.take(i as int)),
        decreases outputs.len() - i,
    {
        proof {
            let upto = outputs@.take(i as int + 1);
            assert(upto.drop_last() =~= outputs@.take(i as int));
            assert(upto.last() == outputs@[i as int]);
        }
        animate(world, outputs[i]);
        i += 1;
    }
    assert(outputs@.take(i as int) =~= outputs@);
}

} // verus!

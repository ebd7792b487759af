//! Gates, which open once the level is cleared and end it when passed.
use vstd::prelude::*;
use crate::animating::{
    Animation, AnimationClipName, AnimationPlayerName, AnimationsOwner, PlayMode,
};
use crate::math::Vec3;
use crate::utils::{both_ways, sensor_events_both_ways, CollisionEvent};
use crate::world::{lookup, Actor, BelongsToLevel, Command, World, WorldView};
use crate::AppState;

verus! {

/// A gate. It opens once and never closes again.
#[derive(Clone, Copy, Debug, PartialEq, Eq, Structural)]
pub struct Gate {
    pub is_open: bool,
}

/// Marks an entity whose life keeps every gate closed.
#[derive(Clone, Copy, Debug, PartialEq, Eq, Structural)]
pub struct KeepGatesClosedWhenAlive;

/// Whether the entity keeps the gates closed: it is marked so and alive.
pub open spec fn blocks_gates(actor: Actor) -> bool {
    actor.keep_gates_closed is Some && (actor.killable matches Some(killable)
        && killable.still_alive)
}

/// Whether some entity keeps the gates closed.
pub open spec fn gates_blocked(actors: Seq<Actor>) -> bool {
    exists|i: int| 0 <= i < actors.len() && blocks_gates(#[trigger] actors[i])
}

/// Whether the entity is a closed gate.
pub open spec fn opens(actor: Actor) -> bool {
    actor.gate matches Some(gate) && !gate.is_open
}

/// The entity with its gate opened, where it is a closed gate.
pub open spec fn opened(actor: Actor) -> Actor {
    if opens(actor) {
        Actor { gate: Some(Gate { is_open: true }), ..actor }
    } else {
        actor
    }
}

/// The request to play the opening of a gate, the entity `entity`, which must
/// have it.
pub open spec fn opening_animation(entity: u64) -> Command {
    Command::PlayAnimation {
        owner: entity,
        animation: Animation::spec_required(
            AnimationPlayerName::GateOpener,
            AnimationClipName::Open,
            PlayMode::Restart,
        ),
    }
}

/// The requests to play the opening of every gate among `actors` that is
/// opened, oldest gate first.
pub open spec fn openings(actors: Seq<Actor>) -> Seq<Command>
    decreases actors.len(),
{
    if actors.len() == 0 {
        Seq::empty()
    } else {
        openings(actors.drop_last()) + (if opens(actors.last()) {
            seq![opening_animation(actors.last().id)]
        } else {
            Seq::empty()
        })
    }
}

/// Tells whether some entity keeps the gates closed.
fn any_blocker(world: &World) -> (blocked: bool)
    requires
        world.wf(),
    ensures
        blocked == gates_blocked(world@.actors),
{
    let mut i: usize = 0;
    while i < world.actors.len()
        invariant
            i <= world.actors.len(),
            forall|k: int| 0 <= k < i ==> !blocks_gates(#[trigger] world@.actors[k]),
        decreases world.actors.len() - i,
    {
        let actor = world.actors[i];
        let alive = match actor.killable {
            Some(killable) => killable.still_alive,
            None => false,
        };
        if actor.keep_gates_closed.is_some() && alive {
            assert(blocks_gates(world@.actors[i as int]));
            return true;
        }
        i += 1;
    }
    false
}

/// The world after the gates were looked at: as it was while something keeps
/// them closed, and else with every closed gate opened and its opening asked
/// to be played.
pub open spec fn after_gate_opening(world: WorldView) -> WorldView {
    if gates_blocked(world.actors) {
        world
    } else {
        WorldView {
            actors: world.actors.map_values(|actor: Actor| opened(actor)),
            commands: world.commands + openings(world.actors),
            ..world
        }
    }
}

/// Opens the gates once nothing keeps them closed. While an entity that is
/// marked to keep the gates closed is alive, nothing changes. After that every
/// closed gate is opened and its opening is played; a gate that is open stays
/// open.
pub fn initiate_gate_opening(world: &mut World)
    requires
        old(world).wf(),
    ensures
        final(world).wf(),
        final(world)@ == after_gate_opening(old(world)@),
        forall|i: int|
            0 <= i < old(world)@.actors.len() && (old(world)@.actors[i].gate matches Some(gate)
                && gate.is_open) ==> #[trigger] final(world)@.actors[i].gate == Some(
                Gate { is_open: true },
            ),
{
    if any_blocker(world) {
        return ;
    }
    let mut i: usize = 0;
    assert(old(world)@.actors.take(0) =~= Seq::<Actor>::empty());
    while i < world.actors.len()
        invariant
            i <= world.actors.len(),
            world.wf(),
            world@.actors.len() == old(world)@.actors.len(),
            forall|k: int| 0 <= k < i ==> world@.actors[k] == opened(old(world)@.actors[k]),
            forall|k: int| i <= k < world@.actors.len() ==> world@.actors[k] == old(world)@.actors[k],
            world@.commands == old(world)@.commands + openings(old(world)@.actors.take(i as int)),
            world@.next_id == old(world)@.next_id,
            world@.committed == old(world)@.committed,
            world@.next_state == old(world)@.next_state,
        decreases world.actors.len() - i,
    {
        proof {
            let upto = old(world)@.actors.take(i as int + 1);
            assert(upto.drop_last() =~= old(world)@.actors.take(i as int));
            assert(upto.last() == old(world)@.actors[i as int]);
            assert(world@.actors[i as int].wf());
        }
        let mut actor = world.actors[i];
        let closed = match actor.gate {
            Some(gate) => !gate.is_open,
            None => false,
        };
        if closed {
            world.push_command(
                Command::PlayAnimation {
                    owner: actor.id,
                    animation: Animation::required(
                        AnimationPlayerName::GateOpener,
                        AnimationClipName::Open,
                        PlayMode::Restart,
                    ),
                },
            );
            actor.gate = Some(Gate { is_open: true });
            world.put_at(i, actor);
        }
        i += 1;
    }
    assert(old(world)@.actors.take(i as int) =~= old(world)@.actors);
    assert(world@.actors =~= old(world)@.actors.map_values(|actor: Actor| opened(actor)));
}

/// While something keeps the gates closed they stay as they are; once nothing
/// does, every gate is open after the frame; its opening
/// is asked to be played in that frame and in no later one; and a gate that is
/// open stays open whatever keeps the gates closed later.
pub proof fn lemma_gates_open_once(world: WorldView, i: int)
    requires
        0 <= i < world.actors.len(),
    ensures
        gates_blocked(world.actors) ==> after_gate_opening(world) == world,
        !gates_blocked(world.actors) && world.actors[i].gate is Some ==> after_gate_opening(
            world,
        ).actors[i].gate == Some(Gate { is_open: true }),
        (world.actors[i].gate matches Some(gate) && gate.is_open) ==> after_gate_opening(
            world,
        ).actors[i].gate == Some(Gate { is_open: true }),
        (world.actors[i].gate matches Some(gate) && gate.is_open) ==> !opens(
            after_gate_opening(world).actors[i],
        ),
        !gates_blocked(world.actors) ==> openings(after_gate_opening(world).actors)
            == Seq::<Command>::empty(),
{
    if !gates_blocked(world.actors) {
        let after = after_gate_opening(world).actors;
        assert forall|k: int| 0 <= k < after.len() implies !opens(#[trigger] after[k]) by {
            assert(after[k] == opened(world.actors[k]));
        }
        lemma_nothing_opens(after);
    }
}

/// Where no gate is to be opened, no opening is asked for.
proof fn lemma_nothing_opens(actors: Seq<Actor>)
    requires
        forall|k: int| 0 <= k < actors.len() ==> !opens(#[trigger] actors[k]),
    ensures
        openings(actors) == Seq::<Command>::empty(),
    decreases actors.len(),
{
    if actors.len() > 0 {
        let head = actors.drop_last();
        assert forall|k: int| 0 <= k < head.len() implies !opens(#[trigger] head[k]) by {
            assert(head[k] == actors[k]);
        }
        lemma_nothing_opens(head);
        assert(!opens(actors[actors.len() - 1]));
    }
}

/// Whether the first of the pair is a player and the second an open gate.
pub open spec fn passes(actors: Seq<Actor>, pair: (u64, u64)) -> bool {
    &&& lookup(actors, pair.0) matches Some(player)
    &&& player.is_player is Some
    &&& lookup(actors, pair.1) matches Some(gate_entity)
    &&& gate_entity.gate matches Some(gate)
    &&& gate.is_open
}

/// Whether some pair shows a player passing an open gate.
pub open spec fn gate_passed(actors: Seq<Actor>, pairs: Seq<(u64, u64)>) -> bool {
    exists|i: int| 0 <= i < pairs.len() && passes(actors, #[trigger] pairs[i])
}

/// The world after the contacts of a frame were searched for a player that
/// passes an open gate.
pub open spec fn after_gate_passing(world: WorldView, collisions: Seq<CollisionEvent>) -> WorldView {
    WorldView {
        next_state: if gate_passed(world.actors, both_ways(collisions, true)) {
            Some(AppState::LevelCompleted)
        } else {
            world.next_state
        },
        ..world
    }
}

/// Asks for the level-completed state where a player is in sensor contact
/// with an open gate. A closed gate has no effect.
pub fn pass_through_gate(world: &mut World, collisions: &Vec<CollisionEvent>)
    requires
        old(world).wf(),
    ensures
        final(world).wf(),
        final(world)@ == after_gate_passing(old(world)@, collisions@),
{
    let pairs = sensor_events_both_ways(collisions);
    let mut passed = false;
    let mut i: usize = 0;
    while i < pairs.len()
        invariant
            i <= pairs.len(),
            world.wf(),
            world@ == old(world)@,
            passed == gate_passed(world@.actors, pairs@.take(i as int)),
        decreases pairs.len() - i,
    {
        let (e1, e2) = pairs[i];
        let is_player = match world.get(e1) {
            Some(actor) => actor.is_player.is_some(),
            None => false,
        };
        let is_open = match world.get(e2) {
            Some(actor) => match actor.gate {
                Some(gate) => gate.is_open,
                None => false,
            },
            None => false,
        };
        let through = is_player && is_open;
        proof {
            let upto = pairs@.take(i as int + 1);
            let before = pairs@.take(i as int);
            assert(through == passes(world@.actors, pairs@[i as int]));
            if gate_passed(world@.actors, before) {
                let k = choose|k: int| 0 <= k < before.len() && passes(world@.actors, #[trigger] before[k]);
                assert(upto[k] == before[k]);
            }
            if through {
                assert(upto[i as int] == pairs@[i as int]);
            }
            if gate_passed(world@.actors, upto) {
                let k = choose|k: int| 0 <= k < upto.len() && passes(world@.actors, #[trigger] upto[k]);
                if k < i {
                    assert(before[k] == upto[k]);
                }
            }
        }
        passed = passed || through;
        i += 1;
    }
    assert(pairs@.take(i as int) =~= pairs@);
    if passed {
        world.next_state = Some(AppState::LevelCompleted);
    }
}

/// How deep behind the plane of play a gate stands.
pub const GATE_DEPTH: i64 = -500_000;

/// Keeps a gate that is edited half a unit behind the plane of play.
pub fn edit_gate_z_depth(position: Vec3) -> (edited: Vec3)
    ensures
        edited == (Vec3 { z: GATE_DEPTH, ..position }),
{
    Vec3 { x: position.x, y: position.y, z: GATE_DEPTH }
}

/// A gate as it comes with the level: closed, with the animations to open.
pub open spec fn new_gate(position: Vec3) -> Actor {
    Actor {
        gate: Some(Gate { is_open: false }),
        animations_owner: Some(AnimationsOwner),
        belongs_to_level: Some(BelongsToLevel),
        ..Actor::spec_bare(0, position)
    }
}

/// Asks for a gate at `position` and hands out its id. It starts
/// closed.
pub fn populate_gate(world: &mut World, position: Vec3) -> (id: u64)
    requires
        old(world).wf(),
        old(world)@.has_room(1),
        position.in_bounds(),
    ensures
        final(world).wf(),
        id == old(world)@.next_id,
        final(world)@ == old(world)@.with_spawn(new_gate(position)),
{
    let mut gate = Actor::bare(0, position);
    gate.gate = Some(Gate { is_open: false });
    gate.animations_owner = Some(AnimationsOwner);
    gate.belongs_to_level = Some(BelongsToLevel);
    world.spawn(gate)
}

} // verus!

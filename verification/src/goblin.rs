//! Goblins: what they are made of, whom they face, and whom they kill.
use vstd::prelude::*;
use crate::animating::{
    AnimationClipName, AnimationPlayerName, AnimationsOwner, ApplyRotationToChild,
    InitialAnimation,
};
use crate::gate::KeepGatesClosedWhenAlive;
use crate::killing::{KillEvent, Killable};
use crate::math::{sign_of, signum_of_difference, Vec2, Vec3, UNIT};
use crate::player::{new_model, single_player, the_player};
use crate::shooting::DestroysBullets;
use crate::utils::{both_ways, events_both_ways, CollisionEvent};
use crate::world::{lookup, Actor, BelongsToLevel, Command, Velocity, World, WorldView};

verus! {

/// Marks a goblin.
#[derive(Clone, Copy, Debug, PartialEq, Eq, Structural)]
pub struct IsGoblin;

/// Whether the entity is a goblin that is alive.
pub open spec fn living_goblin(actor: Actor) -> bool {
    actor.is_goblin is Some && (actor.killable matches Some(killable) && killable.still_alive)
}

/// The goblin as it comes with the level: alive, dancing, an end to bullets
/// and a bar to the gates, shown by the child `model`.
pub open spec fn new_goblin(position: Vec3, model: u64) -> Actor {
    Actor {
        velocity: Some(Velocity { linvel: Vec2 { x: 0, y: 0 }, angvel: 0 }),
        is_goblin: Some(IsGoblin),
        destroys_bullets: Some(DestroysBullets),
        keep_gates_closed: Some(KeepGatesClosedWhenAlive),
        killable: Some(Killable { still_alive: true }),
        animations_owner: Some(AnimationsOwner),
        apply_rotation_to_child: Some(ApplyRotationToChild(model)),
        initial_animation: Some(
            InitialAnimation {
                player_name: AnimationPlayerName::Armature,
                clip_name: AnimationClipName::Dance,
            },
        ),
        belongs_to_level: Some(BelongsToLevel),
        ..Actor::spec_bare(0, position)
    }
}

/// Asks for a goblin at `position`, and for the child that shows it, and
/// hands out the goblin's id. The child gets the id after it.
pub fn populate_goblin(world: &mut World, position: Vec3) -> (id: u64)
    requires
        old(world).wf(),
        old(world)@.has_room(2),
        position.in_bounds(),
    ensures
        final(world).wf(),
        id == old(world)@.next_id,
        final(world)@ == old(world)@.with_spawn(new_goblin(position, (id + 1) as u64)).with_spawn(
            new_model(position, id),
        ),
{
    let id = world.next_id;
    let mut goblin = Actor::bare(0, position);
    goblin.velocity = Some(Velocity { linvel: Vec2 { x: 0, y: 0 }, angvel: 0 });
    goblin.is_goblin = Some(IsGoblin);
    goblin.destroys_bullets = Some(DestroysBullets);
    goblin.keep_gates_closed = Some(KeepGatesClosedWhenAlive);
    goblin.killable = Some(Killable::default());
    goblin.animations_owner = Some(AnimationsOwner);
    goblin.apply_rotation_to_child = Some(ApplyRotationToChild(id + 1));
    goblin.initial_animation = Some(
        InitialAnimation::new(AnimationPlayerName::Armature, AnimationClipName::Dance),
    );
    goblin.belongs_to_level = Some(BelongsToLevel);
    world.spawn(goblin);
    let mut model = Actor::bare(0, position);
    model.parent = Some(id);
    world.spawn(model);
    id
}

/// The kill event that a pair gives: where the first is a living goblin, it
/// dies of a bullet, and else a player dies of it.
pub open spec fn hit_of(actors: Seq<Actor>, pair: (u64, u64)) -> Seq<KillEvent> {
    match (lookup(actors, pair.0), lookup(actors, pair.1)) {
        (Some(goblin), Some(other)) => if !living_goblin(goblin) {
            Seq::empty()
        } else if other.bullet is Some {
            seq![KillEvent { entity_to_kill: pair.0 }]
        } else if other.is_player is Some {
            seq![KillEvent { entity_to_kill: pair.1 }]
        } else {
            Seq::empty()
        },
        _ => Seq::empty(),
    }
}

/// The kill events that the pairs give, in the order of the pairs.
pub open spec fn hits(actors: Seq<Actor>, pairs: Seq<(u64, u64)>) -> Seq<KillEvent>
    decreases pairs.len(),
{
    if pairs.len() == 0 {
        Seq::empty()
    } else {
        hits(actors, pairs.drop_last()) + hit_of(actors, pairs.last())
    }
}

/// Raises the kill events of the contacts of living goblins: against the
/// goblin that a bullet touches, and against the player that a goblin
/// touches. A dead goblin raises none.
pub fn handle_goblin_hitting_stuff(world: &World, collisions: &Vec<CollisionEvent>) -> (raised: Vec<
    KillEvent,
>)
    requires
        world.wf(),
    ensures
        raised@ == hits(world@.actors, both_ways(collisions@, false)),
{
    let pairs = events_both_ways(collisions);
    let mut raised: Vec<KillEvent> = Vec::new();
    let mut i: usize = 0;
    assert(pairs@.take(0) =~= Seq::<(u64, u64)>::empty());
    while i < pairs.len()
        invariant
            i <= pairs.len(),
            world.wf(),
            raised@ == hits(world@.actors, pairs@.take(i as int)),
        decreases pairs.len() - i,
    {
        proof {
            let upto = pairs@.take(i as int + 1);
            assert(upto.drop_last() =~= pairs@.take(i as int));
            assert(upto.last() == pairs@[i as int]);
        }
        let (e1, e2) = pairs[i];
        match (world.get(e1), world.get(e2)) {
            (Some(goblin), Some(other)) => {
                let alive = match goblin.killable {
                    Some(killable) => killable.still_alive,
                    None => false,
                };
                if goblin.is_goblin.is_some() && alive {
                    if other.bullet.is_some() {
                        raised.push(KillEvent { entity_to_kill: e1 });
                    } else if other.is_player.is_some() {
                        raised.push(KillEvent { entity_to_kill: e2 });
                    }
                }
            },
            _ => {},
        }
        i += 1;
    }
    assert(pairs@.take(i as int) =~= pairs@);
    raised
}

/// The direction in which a goblin at `goblin_x` faces a player at
/// `player_x`: along the first axis, toward the player, and the positive way
/// where both stand at the same place.
pub open spec fn facing(player_x: i64, goblin_x: i64) -> Vec3 {
    Vec3 { x: (sign_of(player_x - goblin_x) * UNIT) as i64, y: 0, z: 0 }
}

/// The requests to turn the living goblins among `actors` toward a player at
/// `player_x`, oldest goblin first.
pub open spec fn facings(actors: Seq<Actor>, player_x: i64) -> Seq<Command>
    decreases actors.len(),
{
    if actors.len() == 0 {
        Seq::empty()
    } else {
        facings(actors.drop_last(), player_x) + (if living_goblin(actors.last()) {
            seq![
                Command::Face {
                    entity: actors.last().id,
                    forward: facing(player_x, actors.last().position.x),
                },
            ]
        } else {
            Seq::empty()
        })
    }
}

/// The world after the goblins were turned toward the player.
pub open spec fn after_facing(world: WorldView) -> WorldView {
    WorldView {
        commands: match single_player(world.actors) {
            Some(player) => world.commands + facings(world.actors, player.position.x),
            None => world.commands,
        },
        ..world
    }
}

/// Turns every living goblin toward the player. Where there is no player, or
/// more than one, nothing is asked for.
pub fn goblins_face_player(world: &mut World)
    requires
        old(world).wf(),
    ensures
        final(world).wf(),
        final(world)@ == after_facing(old(world)@),
{
    let player = match the_player(world) {
        Some(player) => player,
        None => {
            assert(world@.commands =~= old(world)@.commands);
            return ;
        },
    };
    let player_x = player.position.x;
    let mut i: usize = 0;
    assert(old(world)@.actors.take(0) =~= Seq::<Actor>::empty());
    while i < world.actors.len()
        invariant
            i <= world.actors.len(),
            world.wf(),
            world@.actors == old(world)@.actors,
            world@.commands == old(world)@.commands + facings(
                old(world)@.actors.take(i as int),
                player_x,
            ),
            world@.next_id == old(world)@.next_id,
            world@.committed == old(world)@.committed,
            world@.next_state == old(world)@.next_state,
        decreases world.actors.len() - i,
    {
        proof {
            let upto = old(world)@.actors.take(i as int + 1);
            assert(upto.drop_last() =~= old(world)@.actors.take(i as int));
            assert(upto.last() == old(world)@.actors[i as int]);
        }
        let actor = world.actors[i];
        let alive = match actor.killable {
            Some(killable) => killable.still_alive,
            None => false,
        };
        if actor.is_goblin.is_some() && alive {
            let sign = signum_of_difference(player_x, actor.position.x);
            world.push_command(
                Command::Face { entity: actor.id, forward: Vec3 { x: sign * UNIT, y: 0, z: 0 } },
            );
        }
        i += 1;
    }
    assert(old(world)@.actors.take(i as int) =~= old(world)@.actors);
}

} // verus!

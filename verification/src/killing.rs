//! Death: who can die, and what a kill event does.
use vstd::prelude::*;
use crate::animating::{Animation, AnimationClipName, AnimationPlayerName, PlayMode};
use crate::math::HALF_UNIT;
use crate::world::{ids_increase, lemma_lookup_replaced, Actor, Command, World, WorldView};
use crate::AppState;

verus! {

/// A request to kill an entity.
#[derive(Clone, Copy, Debug, PartialEq, Eq, Structural)]
pub struct KillEvent {
    pub entity_to_kill: u64,
}

/// The life of an entity that can die. Once dead it stays dead.
#[derive(Clone, Copy, Debug, PartialEq, Eq, Structural)]
pub struct Killable {
    pub still_alive: bool,
}

impl Default for Killable {
    fn default() -> (killable: Self)
        ensures
            killable.still_alive,
    {
        Self { still_alive: true }
    }
}

/// Marks an object of the level below which the player dies of the fall.
#[derive(Clone, Copy, Debug, PartialEq, Eq, Structural)]
pub struct KillPlayerWhenBelow;

/// How far below the lowest marked object the player dies of the fall.
pub const FATAL_DEPTH: i64 = 50_000_000;

/// The target of a kill event, where it can be killed: it exists and can
/// die.
pub open spec fn target_of(world: WorldView, event: KillEvent) -> Option<(Actor, Killable)> {
    match world.get(event.entity_to_kill) {
        Some(target) => match target.killable {
            Some(killable) => Some((target, killable)),
            None => None,
        },
        None => None,
    }
}

/// The request to play the death of `entity`, which must have it.
pub open spec fn death_animation(entity: u64) -> Command {
    Command::PlayAnimation {
        owner: entity,
        animation: Animation::spec_required(
            AnimationPlayerName::Armature,
            AnimationClipName::Death,
            PlayMode::Once,
        ),
    }
}

/// The world after one kill event. A living target dies: bullets are no
/// longer to end on it, and its death is played. An event against what cannot
/// be killed, or is dead already, is ignored.
pub open spec fn killed(world: WorldView, event: KillEvent) -> WorldView {
    match target_of(world, event) {
        Some((target, killable)) => if killable.still_alive {
            world.with_actor(
                target.id,
                Actor { killable: Some(Killable { still_alive: false }), ..target },
            ).with_command(Command::RemoveDestroysBullets { entity: target.id }).with_command(
                death_animation(target.id),
            )
        } else {
            world
        },
        None => world,
    }
}

/// The world after the kill events of a frame, handled in order.
pub open spec fn after_kills(world: WorldView, events: Seq<KillEvent>) -> WorldView
    decreases events.len(),
{
    if events.len() == 0 {
        world
    } else {
        killed(after_kills(world, events.drop_last()), events.last())
    }
}

/// Handles one kill event.
fn kill(world: &mut World, event: KillEvent)
    requires
        old(world).wf(),
    ensures
        final(world).wf(),
        final(world)@ == killed(old(world)@, event),
        final(world)@.next_id == old(world)@.next_id,
{
    let mut target = match world.get(event.entity_to_kill) {
        Some(target) => target,
        None => {
            return ;
        },
    };
    let killable = match target.killable {
        Some(killable) => killable,
        None => {
            return ;
        },
    };
    if !killable.still_alive {
        return ;
    }
    target.killable = Some(Killable { still_alive: false });
    world.put(target.id, target);
    world.push_command(Command::RemoveDestroysBullets { entity: target.id });
    world.push_command(
        Command::PlayAnimation {
            owner: target.id,
            animation: Animation::required(
                AnimationPlayerName::Armature,
                AnimationClipName::Death,
                PlayMode::Once,
            ),
        },
    );
}

/// Kills the targets of the kill events. Each target dies once: a kill event
/// against a dead target changes nothing.
pub fn handle_killing(world: &mut World, events: &Vec<KillEvent>)
    requires
        old(world).wf(),
    ensures
        final(world).wf(),
        final(world)@ == after_kills(old(world)@, events@),
        final(world)@.next_id == old(world)@.next_id,
{
    let mut i: usize = 0;
    assert(events@.take(0) =~= Seq::<KillEvent>::empty());
    while i < events.len()
        invariant
            i <= events.len(),
            world.wf(),
            world@.next_id == old(world)@.next_id,
            world@ == after_kills(old(world)@, events@.take(i as int)),
        decreases events.len() - i,
    {
        proof {
            let upto = events@.take(i as int + 1);
            assert(upto.drop_last() =~= events@.take(i as int));
            assert(upto.last() == events@[i as int]);
        }
        kill(world, events[i]);
        i += 1;
    }
    assert(events@.take(i as int) =~= events@);
}

/// A second kill event against the same target changes nothing: the target
/// stays dead, and its death is asked to be played once, by the first event
/// and only where the target was alive.
pub proof fn lemma_death_is_idempotent(world: WorldView, event: KillEvent)
    requires
        ids_increase(world.actors),
    ensures
        after_kills(world, seq![event, event]) == killed(world, event),
        target_of(world, event) matches Some((target, killable)) ==> {
            &&& target_of(killed(world, event), event) matches Some((_, after))
            &&& !after.still_alive
            &&& killed(world, event).commands == if killable.still_alive {
                world.commands.push(Command::RemoveDestroysBullets { entity: target.id }).push(
                    death_animation(target.id),
                )
            } else {
                world.commands
            }
        },
{
    let once = killed(world, event);
    match target_of(world, event) {
        Some((target, killable)) => {
            crate::world::lemma_index_of(world.actors, event.entity_to_kill);
            if killable.still_alive {
                let dead = Actor { killable: Some(Killable { still_alive: false }), ..target };
                lemma_lookup_replaced(world.actors, target.id, dead, event.entity_to_kill);
                assert(once.get(event.entity_to_kill) == Some(dead));
            }
        },
        None => {},
    }
    assert(killed(once, event) == once);
    let twice = seq![event, event];
    assert(twice.drop_last() =~= seq![event]);
    assert(seq![event].drop_last() =~= Seq::<KillEvent>::empty());
    assert(after_kills(world, seq![event].drop_last()) == world);
    assert(after_kills(world, seq![event]) == once);
}

/// Death is for good: what is dead stays dead, whatever kill events follow.
pub proof fn lemma_dead_stay_dead(world: WorldView, events: Seq<KillEvent>, entity: u64)
    requires
        ids_increase(world.actors),
        world.get(entity) matches Some(actor) && actor.killable == Some(
            Killable { still_alive: false },
        ),
    ensures
        ids_increase(after_kills(world, events).actors),
        after_kills(world, events).get(entity) matches Some(actor) && actor.killable == Some(
            Killable { still_alive: false },
        ),
    decreases events.len(),
{
    if events.len() > 0 {
        let before = after_kills(world, events.drop_last());
        lemma_dead_stay_dead(world, events.drop_last(), entity);
        let event = events.last();
        match target_of(before, event) {
            Some((target, killable)) => {
                crate::world::lemma_index_of(before.actors, event.entity_to_kill);
                if killable.still_alive {
                    let dead = Actor { killable: Some(Killable { still_alive: false }), ..target };
                    lemma_lookup_replaced(before.actors, target.id, dead, entity);
                }
            },
            None => {},
        }
    }
}

/// Whether some event is against `entity`.
pub open spec fn targeted(events: Seq<KillEvent>, entity: u64) -> bool {
    exists|i: int| 0 <= i < events.len() && (#[trigger] events[i]).entity_to_kill == entity
}

/// Who is alive after the kill events of a frame: an entity that can be
/// killed is alive exactly if it was alive and no event was against it, and
/// nothing else about an entity changes.
pub proof fn lemma_who_survives(world: WorldView, events: Seq<KillEvent>, entity: u64)
    requires
        ids_increase(world.actors),
    ensures
        ids_increase(after_kills(world, events).actors),
        match world.get(entity) {
            Some(before) => after_kills(world, events).get(entity) == Some(
                if before.killable is Some && targeted(events, entity) {
                    Actor { killable: Some(Killable { still_alive: false }), ..before }
                } else {
                    before
                },
            ),
            None => after_kills(world, events).get(entity) is None,
        },
    decreases events.len(),
{
    if events.len() == 0 {
        assert(!targeted(events, entity));
    } else {
        let head = events.drop_last();
        let event = events.last();
        let before = after_kills(world, head);
        lemma_who_survives(world, head, entity);
        lemma_who_survives(world, head, event.entity_to_kill);
        crate::world::lemma_index_of(before.actors, event.entity_to_kill);
        crate::world::lemma_index_of(world.actors, event.entity_to_kill);
        match target_of(before, event) {
            Some((target, killable)) => {
                if killable.still_alive {
                    let dead = Actor { killable: Some(Killable { still_alive: false }), ..target };
                    lemma_lookup_replaced(before.actors, target.id, dead, entity);
                }
            },
            None => {},
        }
        if targeted(head, entity) {
            let i = choose|i: int| 0 <= i < head.len() && (#[trigger] head[i]).entity_to_kill == entity;
            assert(events[i].entity_to_kill == entity);
        }
        if event.entity_to_kill == entity {
            assert(events[events.len() - 1].entity_to_kill == entity);
        }
        if targeted(events, entity) && event.entity_to_kill != entity {
            let i = choose|i: int|
                0 <= i < events.len() && (#[trigger] events[i]).entity_to_kill == entity;
            assert(head[i].entity_to_kill == entity);
        }
    }
}

/// Whether some event is against a player.
pub open spec fn player_killed(world: WorldView, events: Seq<KillEvent>) -> bool {
    exists|i: int|
        0 <= i < events.len() && (world.get((#[trigger] events[i]).entity_to_kill) matches Some(
            target,
        ) && target.is_player is Some)
}

/// The world after the kill events were searched for one against a player.
pub open spec fn after_game_over(world: WorldView, events: Seq<KillEvent>) -> WorldView {
    WorldView {
        next_state: if player_killed(world, events) {
            Some(AppState::GameOver)
        } else {
            world.next_state
        },
        ..world
    }
}

/// Asks for the game-over state where a kill event is against a player.
pub fn game_over_when_killing_player(world: &mut World, events: &Vec<KillEvent>)
    requires
        old(world).wf(),
    ensures
        final(world).wf(),
        final(world)@ == after_game_over(old(world)@, events@),
{
    let mut hit = false;
    let mut i: usize = 0;
    while i < events.len()
        invariant
            i <= events.len(),
            world.wf(),
            world@ == old(world)@,
            hit == player_killed(world@, events@.take(i as int)),
        decreases events.len() - i,
    {
        let is_player = match world.get(events[i].entity_to_kill) {
            Some(target) => target.is_player.is_some(),
            None => false,
        };
        proof {
            let upto = events@.take(i as int + 1);
            let before = events@.take(i as int);
            if player_killed(world@, before) {
                let k = choose|k: int|
                    0 <= k < before.len() && (world@.get(
                        (#[trigger] before[k]).entity_to_kill,
                    ) matches Some(target) && target.is_player is Some);
                assert(upto[k] == before[k]);
            }
            if is_player {
                assert(upto[i as int] == events@[i as int]);
            }
            if player_killed(world@, upto) {
                let k = choose|k: int|
                    0 <= k < upto.len() && (world@.get((#[trigger] upto[k]).entity_to_kill) matches Some(
                        target,
                    ) && target.is_player is Some);
                if k < i {
                    assert(before[k] == upto[k]);
                }
            }
        }
        hit = hit || is_player;
        i += 1;
    }
    assert(events@.take(i as int) =~= events@);
    if hit {
        world.next_state = Some(AppState::GameOver);
    }
}

/// The height of the lower edge of an object: half its height in grid cells
/// below its position, or its position where it has no grid size.
pub open spec fn bottom_of(actor: Actor) -> int {
    match actor.grid_size {
        Some(size) => actor.position.y - size.0.y * HALF_UNIT,
        None => actor.position.y as int,
    }
}

/// The lowest lower edge of the objects that are marked as the level's
/// bottom, if there is one.
pub open spec fn lowest_bottom(actors: Seq<Actor>) -> Option<int>
    decreases actors.len(),
{
    if actors.len() == 0 {
        None
    } else {
        let rest = lowest_bottom(actors.drop_last());
        let last = actors.last();
        if last.kill_player_when_below is Some {
            match rest {
                Some(lowest) => if bottom_of(last) < lowest {
                    Some(bottom_of(last))
                } else {
                    Some(lowest)
                },
                None => Some(bottom_of(last)),
            }
        } else {
            rest
        }
    }
}

/// The lowest bottom is the bottom of a marked object and no marked object
/// reaches lower; there is none exactly where no object is marked.
pub proof fn lemma_lowest_bottom(actors: Seq<Actor>)
    ensures
        match lowest_bottom(actors) {
            Some(lowest) => {
                &&& exists|i: int|
                    0 <= i < actors.len() && (#[trigger] actors[i]).kill_player_when_below is Some
                        && bottom_of(actors[i]) == lowest
                &&& forall|i: int|
                    0 <= i < actors.len() && (#[trigger] actors[i]).kill_player_when_below is Some
                        ==> lowest <= bottom_of(actors[i])
            },
            None => forall|i: int|
                0 <= i < actors.len() ==> (#[trigger] actors[i]).kill_player_when_below is None,
        },
    decreases actors.len(),
{
    if actors.len() > 0 {
        let head = actors.drop_last();
        lemma_lowest_bottom(head);
        let last = actors.last();
        assert(forall|i: int| 0 <= i < head.len() ==> head[i] == actors[i]);
        match lowest_bottom(actors) {
            Some(lowest) => {
                if last.kill_player_when_below is Some && bottom_of(last) == lowest {
                    assert(actors[actors.len() - 1].kill_player_when_below is Some);
                } else {
                    let i = choose|i: int|
                        0 <= i < head.len() && (#[trigger] head[i]).kill_player_when_below is Some
                            && bottom_of(head[i]) == lowest;
                    assert(actors[i].kill_player_when_below is Some);
                }
                assert forall|i: int|
                    0 <= i < actors.len() && (#[trigger] actors[i]).kill_player_when_below is Some implies lowest
                    <= bottom_of(actors[i]) by {
                    if i < head.len() {
                        assert(head[i].kill_player_when_below is Some);
                    }
                }
            },
            None => {
                assert forall|i: int| 0 <= i < actors.len() implies (#[trigger] actors[i]).kill_player_when_below is None by {
                    if i < head.len() {
                        assert(head[i].kill_player_when_below is None);
                    }
                }
            },
        }
    }
}

/// Whether the entity is a player that has fallen more than fifty units below
/// `lowest`.
pub open spec fn has_fallen(actor: Actor, lowest: int) -> bool {
    actor.is_player is Some && actor.position.y - lowest < -FATAL_DEPTH
}

/// The kill events against the players among `actors` that have fallen below
/// `lowest`, oldest player first.
pub open spec fn falls(actors: Seq<Actor>, lowest: int) -> Seq<KillEvent>
    decreases actors.len(),
{
    if actors.len() == 0 {
        Seq::empty()
    } else {
        falls(actors.drop_last(), lowest) + (if has_fallen(actors.last(), lowest) {
            seq![KillEvent { entity_to_kill: actors.last().id }]
        } else {
            Seq::empty()
        })
    }
}

/// The kill events against the players that have fallen off the level.
pub open spec fn fallen(actors: Seq<Actor>) -> Seq<KillEvent> {
    match lowest_bottom(actors) {
        Some(lowest) => falls(actors, lowest),
        None => Seq::empty(),
    }
}

/// Computes the lowest bottom of the marked objects.
fn find_lowest_bottom(world: &World) -> (lowest: Option<i64>)
    requires
        world.wf(),
    ensures
        match lowest {
            Some(l) => lowest_bottom(world@.actors) == Some(l as int),
            None => lowest_bottom(world@.actors) is None,
        },
{
    let mut lowest: Option<i64> = None;
    let mut i: usize = 0;
    assert(world@.actors.take(0) =~= Seq::<Actor>::empty());
    while i < world.actors.len()
        invariant
            i <= world.actors.len(),
            world.wf(),
            match lowest {
                Some(l) => lowest_bottom(world@.actors.take(i as int)) == Some(l as int),
                None => lowest_bottom(world@.actors.take(i as int)) is None,
            },
        decreases world.actors.len() - i,
    {
        proof {
            let upto = world@.actors.take(i as int + 1);
            assert(upto.drop_last() =~= world@.actors.take(i as int));
            assert(upto.last() == world@.actors[i as int]);
            assert(world@.actors[i as int].wf());
        }
        let actor = world.actors[i];
        if actor.kill_player_when_below.is_some() {
            let bottom: i64 = match actor.grid_size {
                Some(size) => {
                    let half_height: i64 = size.0.y as i64 * HALF_UNIT;
                    actor.position.y - half_height
                },
                None => actor.position.y,
            };
            lowest = match lowest {
                Some(l) => if bottom < l {
                    Some(bottom)
                } else {
                    Some(l)
                },
                None => Some(bottom),
            };
        }
        i += 1;
    }
    assert(world@.actors.take(i as int) =~= world@.actors);
    lowest
}

/// Raises a kill event against every player that has fallen more than fifty
/// units below the lowest object that marks the bottom of the level. Where
/// no object marks it, nobody falls to death.
pub fn kill_player_when_they_fall(world: &World) -> (raised: Vec<KillEvent>)
    requires
        world.wf(),
    ensures
        raised@ == fallen(world@.actors),
{
    let mut raised: Vec<KillEvent> = Vec::new();
    let lowest_y = match find_lowest_bottom(world) {
        Some(lowest_y) => lowest_y,
        None => {
            return raised;
        },
    };
    proof {
        lemma_lowest_bottom(world@.actors);
    }
    let mut i: usize = 0;
    assert(world@.actors.take(0) =~= Seq::<Actor>::empty());
    while i < world.actors.len()
        invariant
            i <= world.actors.len(),
            world.wf(),
            -4_000_000_000_000_000 <= lowest_y <= 1_000_000_000_000_000,
            raised@ == falls(world@.actors.take(i as int), lowest_y as int),
        decreases world.actors.len() - i,
    {
        proof {
            let upto = world@.actors.take(i as int + 1);
            assert(upto.drop_last() =~= world@.actors.take(i as int));
            assert(upto.last() == world@.actors[i as int]);
            assert(world@.actors[i as int].wf());
        }
        let actor = world.actors[i];
        if actor.is_player.is_some() {
            let player_below_level = actor.position.y - lowest_y;
            if player_below_level < -FATAL_DEPTH {
                raised.push(KillEvent { entity_to_kill: actor.id });
            }
        }
        i += 1;
    }
    assert(world@.actors.take(i as int) =~= world@.actors);
    raised
}

} // verus!

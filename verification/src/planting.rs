//! Seeds that land on fertile ground, and the plants that grow from them.
use vstd::prelude::*;
use crate::math::{Vec3, DELTA_MAX, UNIT};
use crate::utils::{both_ways, events_both_ways, lemma_both_ways_len, CollisionEvent};
use crate::world::{lookup, Actor, BelongsToLevel, Command, World, WorldView};

verus! {

/// The kind of a plant, of its seed and of the ammunition it came from.
#[derive(Clone, Copy, Debug, PartialEq, Eq, Structural)]
pub enum PlantType {
    Tree,
}

impl Default for PlantType {
    fn default() -> (plant_type: Self)
        ensures
            plant_type == PlantType::Tree,
    {
        PlantType::Tree
    }
}

impl PlantType {
    /// The scene that shows a plant of this kind.
    pub fn scene_name(&self) -> (name: &'static str)
        ensures
            *self == PlantType::Tree ==> name@ == "Tree.glb#Scene0"@,
    {
        match self {
            PlantType::Tree => "Tree.glb#Scene0",
        }
    }
}

/// Marks ground on which a seed takes root.
#[derive(Clone, Copy, Debug, PartialEq, Eq, Structural)]
pub struct FertileGround;

/// Marks ammunition that was shot out and is in flight.
#[derive(Clone, Copy, Debug, PartialEq, Eq, Structural)]
pub struct FlyingSeed;

/// Marks a plant that has not reached its full size.
#[derive(Clone, Copy, Debug, PartialEq, Eq, Structural)]
pub struct Growing;

/// The scale of a plant when it takes root.
pub const SEEDLING_SCALE: i64 = 100_000;

/// The least scale whose vector of three equal parts is one unit long or
/// longer.
pub const FULL_GROWN_FROM: i64 = 577_351;

/// The seed of a pair and its kind, where the first of the pair is a seed in
/// flight that has a kind and the second is fertile ground.
pub open spec fn landing(actors: Seq<Actor>, pair: (u64, u64)) -> Option<(Actor, PlantType)> {
    match (lookup(actors, pair.0), lookup(actors, pair.1)) {
        (Some(seed), Some(ground)) => match seed.plant_type {
            Some(plant_type) => if seed.flying_seed is Some && ground.fertile_ground is Some {
                Some((seed, plant_type))
            } else {
                None
            },
            None => None,
        },
        _ => None,
    }
}

/// The plant that a seed of the given kind leaves where it lands: one unit
/// above the landing place, a tenth of its full size, and growing.
pub open spec fn seedling(position: Vec3, plant_type: PlantType) -> Actor {
    Actor {
        scale: SEEDLING_SCALE,
        plant_type: Some(plant_type),
        growing: Some(Growing),
        belongs_to_level: Some(BelongsToLevel),
        ..Actor::spec_bare(0, position.plus(Vec3 { x: 0, y: UNIT, z: 0 }).clamped())
    }
}

/// The world after one pair of entities in contact. Where a seed has landed
/// it is to be removed and a plant is to be created in its place.
pub open spec fn planted(world: WorldView, pair: (u64, u64)) -> WorldView {
    match landing(world.actors, pair) {
        Some((seed, plant_type)) => world.with_command(Command::Despawn { entity: pair.0 }).with_spawn(
            seedling(seed.position, plant_type),
        ),
        None => world,
    }
}

/// The world after the pairs of a frame, handled in order.
pub open spec fn after_landings(world: WorldView, pairs: Seq<(u64, u64)>) -> WorldView
    decreases pairs.len(),
{
    if pairs.len() == 0 {
        world
    } else {
        planted(after_landings(world, pairs.drop_last()), pairs.last())
    }
}

/// Handles one pair of entities in contact.
fn plant(world: &mut World, pair: (u64, u64))
    requires
        old(world).wf(),
        old(world)@.has_room(1),
    ensures
        final(world).wf(),
        final(world)@ == planted(old(world)@, pair),
        final(world)@.next_id <= old(world)@.next_id + 1,
{
    let (seed, ground) = match (world.get(pair.0), world.get(pair.1)) {
        (Some(seed), Some(ground)) => (seed, ground),
        _ => {
            return ;
        },
    };
    let plant_type = match seed.plant_type {
        Some(plant_type) => plant_type,
        None => {
            return ;
        },
    };
    if !(seed.flying_seed.is_some() && ground.fertile_ground.is_some()) {
        return ;
    }
    world.push_command(Command::Despawn { entity: pair.0 });
    let mut plant = Actor::bare(0, seed.position.add(Vec3 { x: 0, y: UNIT, z: 0 }).clamp());
    plant.scale = SEEDLING_SCALE;
    plant.plant_type = Some(plant_type);
    plant.growing = Some(Growing);
    plant.belongs_to_level = Some(BelongsToLevel);
    world.spawn(plant);
}

/// Plants the seeds that have come into contact, sensor or solid, with
/// fertile ground: the seed is to be removed, and a plant of its kind is to be
/// created one unit above where it landed, a tenth of its full size.
pub fn initiate_planting(world: &mut World, collisions: &Vec<CollisionEvent>)
    requires
        old(world).wf(),
        old(world)@.has_room(2 * collisions@.len()),
    ensures
        final(world).wf(),
        final(world)@ == after_landings(old(world)@, both_ways(collisions@, false)),
        final(world)@.next_id <= old(world)@.next_id + 2 * collisions@.len(),
{
    let pairs = events_both_ways(collisions);
    proof {
        lemma_both_ways_len(collisions@, false);
    }
    let mut i: usize = 0;
    assert(pairs@.take(0) =~= Seq::<(u64, u64)>::empty());
    while i < pairs.len()
        invariant
            i <= pairs.len(),
            world.wf(),
            world@.next_id + (pairs@.len() - i) <= u64::MAX,
            world@.next_id <= old(world)@.next_id + i,
            pairs@.len() <= 2 * collisions@.len(),
            world@ == after_landings(old(world)@, pairs@.take(i as int)),
        decreases pairs.len() - i,
    {
        proof {
            let upto = pairs@.take(i as int + 1);
            assert(upto.drop_last() =~= pairs@.take(i as int));
            assert(upto.last() == pairs@[i as int]);
        }
        plant(world, pairs[i]);
        i += 1;
    }
    assert(pairs@.take(i as int) =~= pairs@);
}

/// Whether the vector of three parts `scale` is one unit long or longer.
pub open spec fn full_grown(scale: int) -> bool {
    UNIT * UNIT <= scale * scale + scale * scale + scale * scale
}

/// The scale of a growing plant after `delta` microseconds: larger by two
/// units a second, and its full size as soon as the vector of its three parts
/// is one unit long.
pub open spec fn grown_scale(scale: i64, delta: u64) -> i64 {
    if full_grown(scale + 2 * delta) {
        UNIT
    } else {
        (scale + 2 * delta) as i64
    }
}

/// The entity after `delta` microseconds of growth. What does not grow stays
/// as it is.
pub open spec fn grown(actor: Actor, delta: u64) -> Actor {
    if actor.growing is Some {
        Actor { scale: grown_scale(actor.scale, delta), ..actor }
    } else {
        actor
    }
}

/// What the growth of one entity asks for: to rise by as much as it grows,
/// and to stop growing once it has its full size.
pub open spec fn growth_of(actor: Actor, delta: u64) -> Seq<Command> {
    if actor.growing is Some {
        let rise = Command::Translate {
            entity: actor.id,
            by: Vec3 { x: 0, y: (2 * delta) as i64, z: 0 },
        };
        if full_grown(actor.scale + 2 * delta) {
            seq![rise, Command::RemoveGrowing { entity: actor.id }]
        } else {
            seq![rise]
        }
    } else {
        Seq::empty()
    }
}

/// What the growth of the entities asks for, oldest entity first.
pub open spec fn growth(actors: Seq<Actor>, delta: u64) -> Seq<Command>
    decreases actors.len(),
{
    if actors.len() == 0 {
        Seq::empty()
    } else {
        growth(actors.drop_last(), delta) + growth_of(actors.last(), delta)
    }
}

/// A scale is full grown exactly from [`FULL_GROWN_FROM`] on, in either
/// direction.
pub proof fn lemma_full_grown(scale: int)
    ensures
        full_grown(scale) <==> (scale >= FULL_GROWN_FROM || scale <= -FULL_GROWN_FROM),
{
    let t = FULL_GROWN_FROM as int;
    assert(3 * (t * t) >= UNIT * UNIT && 3 * ((t - 1) * (t - 1)) < UNIT * UNIT) by (nonlinear_arith)
        requires
            t == 577_351,
            UNIT == 1_000_000,
    ;
    if scale >= t {
        assert(scale * scale >= t * t) by (nonlinear_arith)
            requires
                scale >= t,
                t >= 0,
        ;
    } else if scale <= -t {
        assert(scale * scale >= t * t) by (nonlinear_arith)
            requires
                scale <= -t,
                t >= 0,
        ;
    } else {
        assert(scale * scale <= (t - 1) * (t - 1)) by (nonlinear_arith)
            requires
                -(t - 1) <= scale <= t - 1,
                t >= 1,
        ;
    }
}

/// The world after `delta` microseconds of growth.
pub open spec fn after_growing(world: WorldView, delta: u64) -> WorldView {
    WorldView {
        actors: world.actors.map_values(|actor: Actor| grown(actor, delta)),
        commands: world.commands + growth(world.actors, delta),
        ..world
    }
}

/// Lets every growing plant grow for `delta` microseconds: by two units a
/// second, rising as much, until it has its full size, which it is given
/// exactly and with which it stops growing.
pub fn apply_growing(world: &mut World, delta: u64)
    requires
        old(world).wf(),
        delta <= DELTA_MAX,
    ensures
        final(world).wf(),
        final(world)@ == after_growing(old(world)@, delta),
{
    let pace: i64 = 2 * (delta as i64);
    let mut i: usize = 0;
    assert(old(world)@.actors.take(0) =~= Seq::<Actor>::empty());
    while i < world.actors.len()
        invariant
            i <= world.actors.len(),
            world.wf(),
            delta <= DELTA_MAX,
            pace == 2 * delta,
            world@.actors.len() == old(world)@.actors.len(),
            forall|k: int| 0 <= k < i ==> world@.actors[k] == grown(old(world)@.actors[k], delta),
            forall|k: int| i <= k < world@.actors.len() ==> world@.actors[k] == old(world)@.actors[k],
            world@.commands == old(world)@.commands + growth(
                old(world)@.actors.take(i as int),
                delta,
            ),
            world@.next_id == old(world)@.next_id,
            world@.committed == old(world)@.committed,
            world@.next_state == old(world)@.next_state,
        decreases world.actors.len() - i,
    {
        proof {
            let upto = old(world)@.actors.take(i as int + 1);
            assert(upto.drop_last() =~= old(world)@.actors.take(i as int));
            assert(upto.last() == old(world)@.actors[i as int]);
            assert(world@.actors[i as int].wf());
        }
        let mut actor = world.actors[i];
        if actor.growing.is_some() {
            let scale = actor.scale + pace;
            proof {
                lemma_full_grown(scale as int);
            }
            let full = scale >= FULL_GROWN_FROM || scale <= -FULL_GROWN_FROM;
            actor.scale = if full {
                UNIT
            } else {
                scale
            };
            world.put_at(i, actor);
            world.push_command(Command::Translate { entity: actor.id, by: Vec3 { x: 0, y: pace, z: 0 } });
            if full {
                world.push_command(Command::RemoveGrowing { entity: actor.id });
            }
        }
        i += 1;
    }
    assert(old(world)@.actors.take(i as int) =~= old(world)@.actors);
    assert(world@.actors =~= old(world)@.actors.map_values(|actor: Actor| grown(actor, delta)));
}

/// The scale of a growing plant after the frames `deltas`, one after the
/// other.
pub open spec fn grown_over(scale: i64, deltas: Seq<u64>) -> i64
    decreases deltas.len(),
{
    if deltas.len() == 0 {
        scale
    } else {
        grown_scale(grown_over(scale, deltas.drop_last()), deltas.last())
    }
}

/// The time that the frames `deltas` take together.
pub open spec fn total_time(deltas: Seq<u64>) -> int
    decreases deltas.len(),
{
    if deltas.len() == 0 {
        0
    } else {
        total_time(deltas.drop_last()) + deltas.last()
    }
}

/// In a frame a plant that has not its full size grows by exactly twice the
/// time that passed, which makes it larger, or reaches its full size, which
/// it is given exactly.
pub proof fn lemma_growth_step(scale: i64, delta: u64)
    requires
        0 <= scale < FULL_GROWN_FROM,
    ensures
        grown_scale(scale, delta) == UNIT || (grown_scale(scale, delta) == scale + 2 * delta
            && grown_scale(scale, delta) < FULL_GROWN_FROM),
        delta > 0 ==> grown_scale(scale, delta) > scale,
{
    lemma_full_grown(scale + 2 * delta);
}

/// Growth ends: over any frames a plant grows by twice the time passed until
/// that brings it to its full size, and from then on it has exactly its full
/// size.
pub proof fn lemma_growth_terminates(scale: i64, deltas: Seq<u64>)
    requires
        0 <= scale < FULL_GROWN_FROM,
    ensures
        grown_over(scale, deltas) == if scale + 2 * total_time(deltas) >= FULL_GROWN_FROM {
            UNIT as int
        } else {
            scale + 2 * total_time(deltas)
        },
        total_time(deltas) >= 0,
    decreases deltas.len(),
{
    if deltas.len() > 0 {
        let head = deltas.drop_last();
        lemma_growth_terminates(scale, head);
        let before = grown_over(scale, head);
        lemma_full_grown(before + 2 * deltas.last());
    }
}

/// What has stopped growing keeps its scale, and a plant of full size that
/// still counts as growing keeps it too.
pub proof fn lemma_full_size_stays(actor: Actor, delta: u64)
    ensures
        actor.growing is None ==> grown(actor, delta) == actor,
        actor.scale == UNIT ==> grown(actor, delta).scale == UNIT,
{
    lemma_full_grown(UNIT + 2 * delta);
}

} // verus!

//! Ammunition: picking it up, carrying one piece, and using it up.
use vstd::prelude::*;
use crate::math::{clamp_coord, clamp_to_bounds, Vec2, Vec3, UNIT};
use crate::planting::PlantType;
use crate::utils::{both_ways, sensor_events_both_ways, CollisionEvent};
use crate::player_controls::ShootEvent;
use crate::shooting::{bullet_from, ready_to_shoot, recoiled, shot, use_up_of};
use crate::world::{
    ids_increase, lemma_lookup_replaced, lookup, Actor, BelongsToLevel, Command, Velocity, World,
    WorldView,
};

verus! {

/// Marks an entity that picks up what it touches.
#[derive(Clone, Copy, Debug, PartialEq, Eq, Structural)]
pub struct CanPick;

/// Marks ammunition that lies in the level.
#[derive(Clone, Copy, Debug, PartialEq, Eq, Structural)]
pub struct Pickable;

/// A picker has touched a pickable.
#[derive(Clone, Copy, Debug, PartialEq, Eq, Structural)]
pub struct PickEvent {
    pub picker: u64,
    pub pickable: u64,
}

/// Ammunition in a carrier's hands.
#[derive(Clone, Copy, Debug, PartialEq, Eq, Structural)]
pub struct CarriedAmmunition {
    pub remaining_shots: usize,
}

/// The single slot of a carrier.
#[derive(Clone, Copy, Debug, PartialEq, Eq, Structural)]
pub struct CanCarry {
    pub carries: Option<u64>,
}

impl Default for CanCarry {
    fn default() -> (can_carry: Self)
        ensures
            can_carry.carries is None,
    {
        Self { carries: None }
    }
}

/// A shot was fired with the carried ammunition, which recoils along
/// `eject_direction`.
#[derive(Clone, Copy, Debug, PartialEq, Eq, Structural)]
pub struct UseUpShotEvent {
    pub carrier_entity: u64,
    pub carried_ammunition_entity: u64,
    pub eject_direction: Vec3,
}

/// By how much carried ammunition shrinks with each shot.
pub const SHRINK_PER_SHOT: i64 = 100_000;

/// The scale of ammunition when it is picked up.
pub const CARRIED_SCALE: i64 = 500_000;

/// How much of the recoil direction goes into the velocity of a seed.
pub const EJECT_SPEED: i64 = 3;

/// The upward part of the velocity of a seed.
pub const EJECT_LIFT: i64 = 20_000_000;

/// How fast a seed spins, against the recoil direction.
pub const EJECT_SPIN: i64 = 10;

/// Ammunition of the given kind as it lies in the level.
pub open spec fn pickable_ammo(position: Vec3, plant_type: PlantType) -> Actor {
    Actor {
        pickable: Some(Pickable),
        plant_type: Some(plant_type),
        belongs_to_level: Some(BelongsToLevel),
        ..Actor::spec_bare(0, position)
    }
}

/// Asks for ammunition of the given kind to lie at `position` and hands out
/// its id.
pub fn populate_pickable_ammo(world: &mut World, position: Vec3, plant_type: PlantType) -> (id: u64)
    requires
        old(world).wf(),
        old(world)@.has_room(1),
        position.in_bounds(),
    ensures
        final(world).wf(),
        id == old(world)@.next_id,
        final(world)@ == old(world)@.with_spawn(pickable_ammo(position, plant_type)),
{
    let mut ammo = Actor::bare(0, position);
    ammo.pickable = Some(Pickable);
    ammo.plant_type = Some(plant_type);
    ammo.belongs_to_level = Some(BelongsToLevel);
    world.spawn(ammo)
}

/// Whether the first of the pair can pick and the second can be picked.
pub open spec fn picks_up(actors: Seq<Actor>, pair: (u64, u64)) -> bool {
    &&& lookup(actors, pair.0) matches Some(picker)
    &&& picker.can_pick is Some
    &&& lookup(actors, pair.1) matches Some(pickable)
    &&& pickable.pickable is Some
}

/// The pick events that the pairs give, in the order of the pairs.
pub open spec fn pickups(actors: Seq<Actor>, pairs: Seq<(u64, u64)>) -> Seq<PickEvent>
    decreases pairs.len(),
{
    if pairs.len() == 0 {
        Seq::empty()
    } else {
        pickups(actors, pairs.drop_last()) + (if picks_up(actors, pairs.last()) {
            seq![PickEvent { picker: pairs.last().0, pickable: pairs.last().1 }]
        } else {
            Seq::empty()
        })
    }
}

/// Raises a pick event for every sensor contact between an entity that can
/// pick and one that can be picked.
pub fn initiate_pickup(world: &World, collisions: &Vec<CollisionEvent>) -> (raised: Vec<PickEvent>)
    requires
        world.wf(),
    ensures
        raised@ == pickups(world@.actors, both_ways(collisions@, true)),
        raised@.len() <= 2 * collisions@.len(),
{
    let pairs = sensor_events_both_ways(collisions);
    proof {
        crate::utils::lemma_both_ways_len(collisions@, true);
    }
    let mut raised: Vec<PickEvent> = Vec::new();
    let mut i: usize = 0;
    assert(pairs@.take(0) =~= Seq::<(u64, u64)>::empty());
    while i < pairs.len()
        invariant
            i <= pairs.len(),
            world.wf(),
            raised@.len() <= i,
            raised@ == pickups(world@.actors, pairs@.take(i as int)),
        decreases pairs.len() - i,
    {
        proof {
            let upto = pairs@.take(i as int + 1);
            assert(upto.drop_last() =~= pairs@.take(i as int));
            assert(upto.last() == pairs@[i as int]);
        }
        let (e1, e2) = pairs[i];
        let can_pick = match world.get(e1) {
            Some(actor) => actor.can_pick.is_some(),
            None => false,
        };
        let pickable = match world.get(e2) {
            Some(actor) => actor.pickable.is_some(),
            None => false,
        };
        if can_pick && pickable {
            raised.push(PickEvent { picker: e1, pickable: e2 });
        }
        i += 1;
    }
    assert(pairs@.take(i as int) =~= pairs@);
    raised
}

/// The carrier of a pick event, the child that shows it, and the kind of
/// what is picked, where the pickup succeeds: the picker exists and has an
/// empty slot and a child that shows it, which exists, and what is picked
/// exists and has a kind.
pub open spec fn ready_to_carry(world: WorldView, event: PickEvent) -> Option<(Actor, u64, PlantType)> {
    match world.get(event.picker) {
        Some(carrier) => match (carrier.can_carry, carrier.apply_rotation_to_child) {
            (Some(can_carry), Some(model)) => match world.get(event.pickable) {
                Some(pickable) => match pickable.plant_type {
                    Some(plant_type) => if can_carry.carries is None && world.get(model.0) is Some {
                        Some((carrier, model.0, plant_type))
                    } else {
                        None
                    },
                    None => None,
                },
                None => None,
            },
            _ => None,
        },
        None => None,
    }
}

/// Ammunition as it is picked up: a child of `model` at a fixed offset from
/// it, of half size, with one shot.
pub open spec fn carried_ammunition(model: u64, plant_type: PlantType) -> Actor {
    Actor {
        parent: Some(model),
        scale: CARRIED_SCALE,
        carried_ammunition: Some(CarriedAmmunition { remaining_shots: 1 }),
        plant_type: Some(plant_type),
        ..Actor::spec_bare(0, Vec3 { x: 0, y: UNIT, z: UNIT })
    }
}

/// The world after one pick event. Where the pickup succeeds, what is picked
/// is to be removed, the carried ammunition is to be created, and the
/// carrier's slot names it. Otherwise the event is ignored.
pub open spec fn picked(world: WorldView, event: PickEvent) -> WorldView {
    match ready_to_carry(world, event) {
        Some((carrier, model, plant_type)) => world.with_command(
            Command::Despawn { entity: event.pickable },
        ).with_spawn(carried_ammunition(model, plant_type)).with_actor(
            carrier.id,
            Actor { can_carry: Some(CanCarry { carries: Some(world.next_id) }), ..carrier },
        ),
        None => world,
    }
}

/// The world after the pick events of a frame, handled in order.
pub open spec fn after_pickups(world: WorldView, events: Seq<PickEvent>) -> WorldView
    decreases events.len(),
{
    if events.len() == 0 {
        world
    } else {
        picked(after_pickups(world, events.drop_last()), events.last())
    }
}

/// Handles one pick event.
fn pick(world: &mut World, event: PickEvent)
    requires
        old(world).wf(),
        old(world)@.has_room(1),
    ensures
        final(world).wf(),
        final(world)@ == picked(old(world)@, event),
        final(world)@.next_id <= old(world)@.next_id + 1,
{
    let carrier = match world.get(event.picker) {
        Some(carrier) => carrier,
        None => {
            return ;
        },
    };
    let (can_carry, model_entity) = match (carrier.can_carry, carrier.apply_rotation_to_child) {
        (Some(can_carry), Some(model)) => (can_carry, model.0),
        _ => {
            return ;
        },
    };
    if can_carry.carries.is_some() {
        return ;
    }
    let plant_type = match world.get(event.pickable) {
        Some(pickable) => match pickable.plant_type {
            Some(plant_type) => plant_type,
            None => {
                return ;
            },
        },
        None => {
            return ;
        },
    };
    if !world.contains(model_entity) {
        return ;
    }
    world.push_command(Command::Despawn { entity: event.pickable });
    let mut ammunition = Actor::bare(0, Vec3 { x: 0, y: UNIT, z: UNIT });
    ammunition.parent = Some(model_entity);
    ammunition.scale = CARRIED_SCALE;
    ammunition.carried_ammunition = Some(CarriedAmmunition { remaining_shots: 1 });
    ammunition.plant_type = Some(plant_type);
    let id = world.spawn(ammunition);
    let mut after = carrier;
    after.can_carry = Some(CanCarry { carries: Some(id) });
    world.put(carrier.id, after);
}

/// Lets carriers take what they picked. A pickup succeeds where the carrier's
/// slot is empty; a carrier that carries something ignores the event.
pub fn handle_carrying(world: &mut World, events: &Vec<PickEvent>)
    requires
        old(world).wf(),
        old(world)@.has_room(events@.len()),
    ensures
        final(world).wf(),
        final(world)@ == after_pickups(old(world)@, events@),
        final(world)@.next_id <= old(world)@.next_id + events@.len(),
{
    let mut i: usize = 0;
    assert(events@.take(0) =~= Seq::<PickEvent>::empty());
    while i < events.len()
        invariant
            i <= events.len(),
            world.wf(),
            world@.next_id + (events@.len() - i) <= u64::MAX,
            world@.next_id <= old(world)@.next_id + i,
            world@ == after_pickups(old(world)@, events@.take(i as int)),
        decreases events.len() - i,
    {
        proof {
            let upto = events@.take(i as int + 1);
            assert(upto.drop_last() =~= events@.take(i as int));
            assert(upto.last() == events@[i as int]);
        }
        pick(world, events[i]);
        i += 1;
    }
    assert(events@.take(i as int) =~= events@);
}

/// The velocity with which a seed leaves along `direction`: three times the
/// direction in the plane of play and twenty units a second upward, spinning
/// at ten times the direction's first coordinate, the other way round.
pub open spec fn eject_velocity(direction: Vec3) -> Velocity {
    Velocity {
        linvel: Vec2 {
            x: (EJECT_SPEED * direction.x) as i64,
            y: (EJECT_SPEED * direction.y + EJECT_LIFT) as i64,
        },
        angvel: (-(EJECT_SPIN * direction.x)) as i64,
    }
}

/// Whether the entity `id` exists and can carry.
pub open spec fn is_carrier(world: WorldView, id: u64) -> bool {
    world.get(id) matches Some(carrier) && carrier.can_carry is Some
}

/// The ammunition that a use-up event is about, where the event is handled:
/// the ammunition exists and has a shot left, and the carrier exists and can
/// carry.
pub open spec fn ready_to_use_up(world: WorldView, event: UseUpShotEvent) -> Option<
    (Actor, CarriedAmmunition),
> {
    match world.get(event.carried_ammunition_entity) {
        Some(ammunition) => match ammunition.carried_ammunition {
            Some(carried) => if carried.remaining_shots > 0 && is_carrier(
                world,
                event.carrier_entity,
            ) {
                Some((ammunition, carried))
            } else {
                None
            },
            None => None,
        },
        None => None,
    }
}

/// Ammunition after a shot: one shot fewer and a tenth of a unit smaller, as
/// far as the range of scales goes.
pub open spec fn shrunk(ammunition: Actor, carried: CarriedAmmunition) -> Actor {
    Actor {
        scale: clamp_coord(ammunition.scale - SHRINK_PER_SHOT),
        carried_ammunition: Some(
            CarriedAmmunition { remaining_shots: (carried.remaining_shots - 1) as usize },
        ),
        ..ammunition
    }
}

/// The world with the slot of the carrier `id` emptied, where there is such
/// a carrier.
pub open spec fn with_empty_slot(world: WorldView, id: u64) -> WorldView {
    match world.get(id) {
        Some(carrier) => if carrier.can_carry is Some {
            world.with_actor(id, Actor { can_carry: Some(CanCarry { carries: None }), ..carrier })
        } else {
            world
        },
        None => world,
    }
}

/// The world after one use-up event. The ammunition loses a shot and shrinks;
/// with its last shot the carrier's slot is emptied and the ammunition is to
/// fly off as a seed. An event about ammunition that is not there or has no
/// shot left, or for a carrier that is not there or cannot carry, is dropped.
pub open spec fn used_up(world: WorldView, event: UseUpShotEvent) -> WorldView {
    match ready_to_use_up(world, event) {
        Some((ammunition, carried)) => {
            let shrunk_world = world.with_actor(ammunition.id, shrunk(ammunition, carried));
            if carried.remaining_shots == 1 {
                with_empty_slot(shrunk_world, event.carrier_entity).with_command(
                    Command::Eject {
                        entity: event.carried_ammunition_entity,
                        velocity: eject_velocity(event.eject_direction),
                    },
                )
            } else {
                shrunk_world
            }
        },
        None => world,
    }
}

/// The world after the use-up events of a frame, handled in order.
pub open spec fn after_use_ups(world: WorldView, events: Seq<UseUpShotEvent>) -> WorldView
    decreases events.len(),
{
    if events.len() == 0 {
        world
    } else {
        used_up(after_use_ups(world, events.drop_last()), events.last())
    }
}

/// Handles one use-up event.
fn use_up(world: &mut World, event: UseUpShotEvent)
    requires
        old(world).wf(),
        event.eject_direction.in_bounds(),
    ensures
        final(world).wf(),
        final(world)@ == used_up(old(world)@, event),
        final(world)@.next_id == old(world)@.next_id,
{
    let mut ammunition = match world.get(event.carried_ammunition_entity) {
        Some(ammunition) => ammunition,
        None => {
            return ;
        },
    };
    let mut carried = match ammunition.carried_ammunition {
        Some(carried) => carried,
        None => {
            return ;
        },
    };
    if carried.remaining_shots == 0 {
        return ;
    }
    let can_carry = match world.get(event.carrier_entity) {
        Some(carrier) => carrier.can_carry.is_some(),
        None => false,
    };
    if !can_carry {
        return ;
    }
    carried.remaining_shots -= 1;
    ammunition.carried_ammunition = Some(carried);
    ammunition.scale = clamp_to_bounds(ammunition.scale - SHRINK_PER_SHOT);
    world.put(ammunition.id, ammunition);
    if carried.remaining_shots == 0 {
        match world.get(event.carrier_entity) {
            Some(carrier) => {
                if carrier.can_carry.is_some() {
                    let mut after = carrier;
                    after.can_carry = Some(CanCarry { carries: None });
                    world.put(carrier.id, after);
                }
            },
            None => {},
        }
        let direction = event.eject_direction;
        world.push_command(
            Command::Eject {
                entity: event.carried_ammunition_entity,
                velocity: Velocity {
                    linvel: Vec2 {
                        x: EJECT_SPEED * direction.x,
                        y: EJECT_SPEED * direction.y + EJECT_LIFT,
                    },
                    angvel: -(EJECT_SPIN * direction.x),
                },
            },
        );
    }
}

/// Uses up a shot of the carried ammunition for every use-up event. With its
/// last shot the ammunition leaves the carrier, whose slot is empty again,
/// and flies off as a seed.
pub fn handle_useup(world: &mut World, events: &Vec<UseUpShotEvent>)
    requires
        old(world).wf(),
        forall|i: int| 0 <= i < events@.len() ==> (#[trigger] events@[i]).eject_direction.in_bounds(),
    ensures
        final(world).wf(),
        final(world)@ == after_use_ups(old(world)@, events@),
        final(world)@.next_id == old(world)@.next_id,
{
    let mut i: usize = 0;
    assert(events@.take(0) =~= Seq::<UseUpShotEvent>::empty());
    while i < events.len()
        invariant
            i <= events.len(),
            world.wf(),
            forall|k: int|
                0 <= k < events@.len() ==> (#[trigger] events@[k]).eject_direction.in_bounds(),
            world@.next_id == old(world)@.next_id,
            world@ == after_use_ups(old(world)@, events@.take(i as int)),
        decreases events.len() - i,
    {
        proof {
            let upto = events@.take(i as int + 1);
            assert(upto.drop_last() =~= events@.take(i as int));
            assert(upto.last() == events@[i as int]);
        }
        use_up(world, events[i]);
        i += 1;
    }
    assert(events@.take(i as int) =~= events@);
}

/// Whether the picker of the event is a carrier whose slot is taken.
pub open spec fn slot_taken(world: WorldView, event: PickEvent) -> bool {
    world.get(event.picker) matches Some(carrier) && (carrier.can_carry matches Some(can_carry)
        && can_carry.carries is Some)
}

/// A carrier carries one thing at a time: pick events for carriers whose slot
/// is taken change nothing, however many there are.
pub proof fn lemma_single_slot(world: WorldView, events: Seq<PickEvent>)
    requires
        forall|i: int| 0 <= i < events.len() ==> slot_taken(world, #[trigger] events[i]),
    ensures
        after_pickups(world, events) == world,
    decreases events.len(),
{
    if events.len() > 0 {
        let head = events.drop_last();
        assert forall|i: int| 0 <= i < head.len() implies slot_taken(world, #[trigger] head[i]) by {
            assert(head[i] == events[i]);
        }
        lemma_single_slot(world, head);
        assert(slot_taken(world, events[events.len() - 1]));
    }
}

/// The last shot leaves the carrier with an empty slot and the ammunition as
/// one seed in flight: where a shooter fires along `event.direction` with
/// ammunition that has one shot left, its slot is empty once the use-up event
/// is handled, and the only requests made are one for the bullet and one to
/// eject the ammunition, against the direction of the shot: at three times the
/// recoil plus twenty units a second upward, spinning at ten times the
/// recoil's first coordinate the other way round.
pub proof fn lemma_last_shot_ejects_seed(world: WorldView, event: ShootEvent)
    requires
        ids_increase(world.actors),
        event.direction.in_bounds(),
        ready_to_shoot(world, event) matches Some((_, carried)) && (world.get(
            carried,
        ) matches Some(ammunition) && ammunition.carried_ammunition == Some(
            CarriedAmmunition { remaining_shots: 1 },
        )),
    ensures
        ({
            let (shooter, carried) = ready_to_shoot(world, event).unwrap();
            let recoil = event.direction.negated();
            let fired = shot(world, event);
            let raised = use_up_of(world, event);
            let after = used_up(fired, raised[0]);
            &&& raised.len() == 1
            &&& raised[0].eject_direction == recoil
            &&& after.get(shooter.id) matches Some(carrier) && carrier.can_carry == Some(
                CanCarry { carries: None },
            )
            &&& after.get(carried) matches Some(ammunition) && ammunition.carried_ammunition
                == Some(CarriedAmmunition { remaining_shots: 0 })
            &&& after.commands == world.commands.push(
                Command::Spawn {
                    actor: Actor {
                        id: world.next_id,
                        ..bullet_from(shooter.position, event.direction)
                    },
                },
            ).push(Command::Eject { entity: carried, velocity: eject_velocity(recoil) })
            &&& eject_velocity(recoil).linvel.x == -3 * event.direction.x
            &&& eject_velocity(recoil).linvel.y == -3 * event.direction.y + 20 * UNIT
            &&& eject_velocity(recoil).angvel == 10 * event.direction.x
        }),
{
    let (shooter, carried) = ready_to_shoot(world, event).unwrap();
    crate::world::lemma_index_of(world.actors, event.shooter_entity);
    crate::world::lemma_index_of(world.actors, carried);
    lemma_lookup_replaced(world.actors, shooter.id, recoiled(shooter), carried);
    lemma_lookup_replaced(world.actors, shooter.id, recoiled(shooter), shooter.id);
    let fired = shot(world, event);
    assert(fired.get(shooter.id) == Some(recoiled(shooter)));
    let ammunition = fired.get(carried).unwrap();
    let charge = ammunition.carried_ammunition.unwrap();
    assert(charge.remaining_shots == 1);
    let use_up = use_up_of(world, event)[0];
    assert(is_carrier(fired, use_up.carrier_entity));
    assert(ready_to_use_up(fired, use_up) == Some((ammunition, charge)));
    assert(ammunition.id == carried);
    lemma_lookup_replaced(fired.actors, carried, shrunk(ammunition, charge), shooter.id);
    lemma_lookup_replaced(fired.actors, carried, shrunk(ammunition, charge), carried);
    let spent = fired.with_actor(carried, shrunk(ammunition, charge));
    let carrier = spent.get(shooter.id).unwrap();
    assert(carrier.can_carry is Some);
    let idle = Actor { can_carry: Some(CanCarry { carries: None }), ..carrier };
    lemma_lookup_replaced(spent.actors, shooter.id, idle, shooter.id);
    lemma_lookup_replaced(spent.actors, shooter.id, idle, carried);
}

} // verus!

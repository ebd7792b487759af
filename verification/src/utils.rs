//! Contacts between entities, told both ways round.
use vstd::prelude::*;
use crate::world::{Actor, World};

verus! {

/// What kind of contact an event reports.
#[derive(Clone, Copy, Debug, PartialEq, Eq, Structural)]
pub struct CollisionEventFlags {
    /// At least one of the two bodies is a sensor: they overlap without
    /// pushing each other.
    pub sensor: bool,
    /// The contact ended because one of the bodies was removed.
    pub removed: bool,
}

/// Two entities have come into contact, or have parted.
#[derive(Clone, Copy, Debug, PartialEq, Eq, Structural)]
pub enum CollisionEvent {
    Started(u64, u64, CollisionEventFlags),
    Stopped(u64, u64, CollisionEventFlags),
}

/// The pairs that one event gives: both orders of the two entities where a
/// contact has started, and, where only sensor contacts are asked for, where it
/// is a sensor contact and nothing else.
pub open spec fn pairs_of(event: CollisionEvent, sensor_only: bool) -> Seq<(u64, u64)> {
    match event {
        CollisionEvent::Started(a, b, flags) => if !sensor_only || (flags.sensor && !flags.removed) {
            seq![(a, b), (b, a)]
        } else {
            Seq::empty()
        },
        CollisionEvent::Stopped(_, _, _) => Seq::empty(),
    }
}

/// The pairs that a frame's events give, in the order of the events.
pub open spec fn both_ways(events: Seq<CollisionEvent>, sensor_only: bool) -> Seq<(u64, u64)>
    decreases events.len(),
{
    if events.len() == 0 {
        Seq::empty()
    } else {
        both_ways(events.drop_last(), sensor_only) + pairs_of(events.last(), sensor_only)
    }
}

/// Whether `event` reports the start of a contact between `a` and `b`, in
/// either order, of the kind asked for.
pub open spec fn joins(event: CollisionEvent, sensor_only: bool, a: u64, b: u64) -> bool {
    event matches CollisionEvent::Started(first, second, flags) && (!sensor_only || (flags.sensor
        && !flags.removed)) && ((first == a && second == b) || (first == b && second == a))
}

/// A pair is told exactly when some event joins its two entities, and then
/// its mirror is told too.
pub proof fn lemma_both_ways_pairs(events: Seq<CollisionEvent>, sensor_only: bool, a: u64, b: u64)
    ensures
        both_ways(events, sensor_only).contains((a, b)) <==> exists|i: int|
            0 <= i < events.len() && joins(#[trigger] events[i], sensor_only, a, b),
        both_ways(events, sensor_only).contains((a, b)) <==> both_ways(events, sensor_only).contains(
            (b, a),
        ),
    decreases events.len(),
{
    let all = both_ways(events, sensor_only);
    if events.len() == 0 {
        assert(!all.contains((a, b)));
        assert(!all.contains((b, a)));
    } else {
        let head = events.drop_last();
        let earlier = both_ways(head, sensor_only);
        let last = pairs_of(events.last(), sensor_only);
        lemma_both_ways_pairs(head, sensor_only, a, b);
        lemma_contains_in_sum(earlier, last, (a, b));
        lemma_contains_in_sum(earlier, last, (b, a));
        lemma_pairs_of(events.last(), sensor_only, a, b);
        lemma_pairs_of(events.last(), sensor_only, b, a);
        if exists|i: int| 0 <= i < events.len() && joins(#[trigger] events[i], sensor_only, a, b) {
            let i = choose|i: int| 0 <= i < events.len() && joins(
                #[trigger] events[i],
                sensor_only,
                a,
                b,
            );
            if i < head.len() {
                assert(joins(head[i], sensor_only, a, b));
            }
        }
        if exists|i: int| 0 <= i < head.len() && joins(#[trigger] head[i], sensor_only, a, b) {
            let i = choose|i: int| 0 <= i < head.len() && joins(#[trigger] head[i], sensor_only, a, b);
            assert(joins(events[i], sensor_only, a, b));
        }
        if joins(events.last(), sensor_only, a, b) {
            assert(joins(events[events.len() - 1], sensor_only, a, b));
        }
    }
}

proof fn lemma_pairs_of(event: CollisionEvent, sensor_only: bool, a: u64, b: u64)
    ensures
        pairs_of(event, sensor_only).contains((a, b)) <==> joins(event, sensor_only, a, b),
{
    let pairs = pairs_of(event, sensor_only);
    if joins(event, sensor_only, a, b) {
        assert(pairs.len() == 2);
        assert(pairs[0] == (a, b) || pairs[1] == (a, b));
    }
}

proof fn lemma_contains_in_sum(first: Seq<(u64, u64)>, second: Seq<(u64, u64)>, pair: (u64, u64))
    ensures
        (first + second).contains(pair) <==> first.contains(pair) || second.contains(pair),
{
    let sum = first + second;
    if first.contains(pair) {
        let i = choose|i: int| 0 <= i < first.len() && first[i] == pair;
        assert(sum[i] == pair);
    }
    if second.contains(pair) {
        let i = choose|i: int| 0 <= i < second.len() && second[i] == pair;
        assert(sum[first.len() + i] == pair);
    }
    if sum.contains(pair) {
        let i = choose|i: int| 0 <= i < sum.len() && sum[i] == pair;
        if i < first.len() {
            assert(first[i] == pair);
        } else {
            assert(second[i - first.len()] == pair);
        }
    }
}

/// Every event gives at most two pairs.
pub proof fn lemma_both_ways_len(events: Seq<CollisionEvent>, sensor_only: bool)
    ensures
        both_ways(events, sensor_only).len() <= 2 * events.len(),
    decreases events.len(),
{
    if events.len() > 0 {
        lemma_both_ways_len(events.drop_last(), sensor_only);
    }
}

fn pair_events(events: &Vec<CollisionEvent>, sensor_only: bool) -> (pairs: Vec<(u64, u64)>)
    ensures
        pairs@ == both_ways(events@, sensor_only),
{
    let mut pairs: Vec<(u64, u64)> = Vec::new();
    let mut i: usize = 0;
    assert(events@.take(0) =~= Seq::<CollisionEvent>::empty());
    while i < events.len()
        invariant
            i <= events.len(),
            pairs@ == both_ways(events@.take(i as int), sensor_only),
        decreases events.len() - i,
    {
        proof {
            let upto = events@.take(i as int + 1);
            assert(upto.drop_last() =~= events@.take(i as int));
            assert(upto.last() == events@[i as int]);
        }
        match events[i] {
            CollisionEvent::Started(a, b, flags) => {
                if !sensor_only || (flags.sensor && !flags.removed) {
                    pairs.push((a, b));
                    pairs.push((b, a));
                }
            },
            CollisionEvent::Stopped(_, _, _) => {},
        }
        i += 1;
    }
    assert(events@.take(i as int) =~= events@);
    pairs
}

/// For every sensor contact that has started, the two entities in both
/// orders, so that a reader looks only for its own subject in the first place.
pub fn sensor_events_both_ways(events: &Vec<CollisionEvent>) -> (pairs: Vec<(u64, u64)>)
    ensures
        pairs@ == both_ways(events@, true),
{
    pair_events(events, true)
}

/// For every contact that has started, sensor or solid, the two entities in
/// both orders.
pub fn events_both_ways(events: &Vec<CollisionEvent>) -> (pairs: Vec<(u64, u64)>)
    ensures
        pairs@ == both_ways(events@, false),
{
    pair_events(events, false)
}

/// A way to ask of an entity whether it is of some kind, and to get hold of
/// it where it is.
pub trait GetForEntity: Sized {
    type Output;

    /// What the query needs in order to be asked.
    spec fn valid(&self) -> bool;

    /// What the query finds under `entity`, if anything.
    spec fn found(&self, entity: u64) -> Option<Self::Output>;

    /// Whether the query finds something under `entity`.
    fn check(&self, entity: u64) -> (has: bool)
        requires
            self.valid(),
        ensures
            has == (self.found(entity) is Some),
    ;

    /// What the query finds under `entity`.
    fn get(self, entity: u64) -> (output: Option<Self::Output>)
        requires
            self.valid(),
        ensures
            output == self.found(entity),
    ;
}

/// The kinds of entity that a [`Query`] can ask for.
#[derive(Clone, Copy, Debug, PartialEq, Eq, Structural)]
pub enum Kind {
    Player,
    Goblin,
    CanPick,
    Pickable,
    Bullet,
    DestroysBullets,
    FlyingSeed,
    FertileGround,
    Gate,
    Killable,
}

impl Kind {
    /// Whether the entity is of this kind.
    pub open spec fn holds_of(self, actor: Actor) -> bool {
        match self {
            Kind::Player => actor.is_player is Some,
            Kind::Goblin => actor.is_goblin is Some,
            Kind::CanPick => actor.can_pick is Some,
            Kind::Pickable => actor.pickable is Some,
            Kind::Bullet => actor.bullet is Some,
            Kind::DestroysBullets => actor.destroys_bullets is Some,
            Kind::FlyingSeed => actor.flying_seed is Some,
            Kind::FertileGround => actor.fertile_ground is Some,
            Kind::Gate => actor.gate is Some,
            Kind::Killable => actor.killable is Some,
        }
    }

    /// Tells whether the entity is of this kind.
    pub fn matches(self, actor: &Actor) -> (yes: bool)
        ensures
            yes == self.holds_of(*actor),
    {
        match self {
            Kind::Player => actor.is_player.is_some(),
            Kind::Goblin => actor.is_goblin.is_some(),
            Kind::CanPick => actor.can_pick.is_some(),
            Kind::Pickable => actor.pickable.is_some(),
            Kind::Bullet => actor.bullet.is_some(),
            Kind::DestroysBullets => actor.destroys_bullets.is_some(),
            Kind::FlyingSeed => actor.flying_seed.is_some(),
            Kind::FertileGround => actor.fertile_ground.is_some(),
            Kind::Gate => actor.gate.is_some(),
            Kind::Killable => actor.killable.is_some(),
        }
    }
}

/// The entities of one kind in a world.
pub struct Query<'a> {
    pub world: &'a World,
    pub kind: Kind,
}

impl<'a> GetForEntity for Query<'a> {
    type Output = Actor;

    open spec fn valid(&self) -> bool {
        self.world.wf()
    }

    open spec fn found(&self, entity: u64) -> Option<Actor> {
        match self.world@.get(entity) {
            Some(actor) => if self.kind.holds_of(actor) {
                Some(actor)
            } else {
                None
            },
            None => None,
        }
    }

    fn check(&self, entity: u64) -> (has: bool) {
        match self.world.get(entity) {
            Some(actor) => self.kind.matches(&actor),
            None => false,
        }
    }

    fn get(self, entity: u64) -> (output: Option<Actor>) {
        match self.world.get(entity) {
            Some(actor) => if self.kind.matches(&actor) {
                Some(actor)
            } else {
                None
            },
            None => None,
        }
    }
}

/// A handful of entities to be told apart by what they are.
pub struct EntityMatcher<const N: usize> {
    pub entities: [u64; N],
    pub num_matched: usize,
}

/// Whether `i` is the first place of `entities`, from `from` on, under which
/// the query finds something.
pub open spec fn is_first_match<G: GetForEntity>(query: G, entities: Seq<u64>, from: int, i: int) -> bool {
    &&& from <= i < entities.len()
    &&& query.found(entities[i]) is Some
    &&& forall|j: int| from <= j < i ==> query.found(#[trigger] entities[j]) is None
}

impl<const N: usize> EntityMatcher<N> {
    /// The entities in the order given, none of them matched.
    pub fn new(entities: [u64; N]) -> (matcher: Self)
        ensures
            matcher.entities == entities,
            matcher.num_matched == 0,
    {
        Self { entities, num_matched: 0 }
    }

    /// Looks among the entities that are not matched for the first under
    /// which the query finds something, moves it to the front of them, and
    /// hands out what the query finds under it. Where there is none, nothing
    /// changes and nothing is handed out.
    pub fn get<G: GetForEntity>(&mut self, query: G) -> (output: Option<G::Output>)
        requires
            query.valid(),
            old(self).num_matched <= N,
        ensures
            final(self).num_matched == old(self).num_matched,
            match output {
                Some(_) => exists|i: int|
                    is_first_match(query, old(self).entities@, old(self).num_matched as int, i)
                        && output == query.found(old(self).entities@[i]) && final(self).entities@
                        == old(self).entities@.update(
                        old(self).num_matched as int,
                        old(self).entities@[i],
                    ).update(i, old(self).entities@[old(self).num_matched as int]),
                None => final(self).entities@ == old(self).entities@ && forall|j: int|
                    old(self).num_matched <= j < N ==> query.found(
                        #[trigger] old(self).entities@[j],
                    ) is None,
            },
    {
        let from = self.num_matched;
        let mut index = from;
        while index < N
            invariant
                from <= index <= N,
                from == old(self).num_matched,
                query.valid(),
                self.entities@ == old(self).entities@,
                self.num_matched == from,
                forall|j: int| from <= j < index ==> query.found(#[trigger] self.entities@[j]) is None,
            decreases N - index,
        {
            let entity = self.entities[index];
            if query.check(entity) {
                let mut entities = self.entities;
                let first = entities[from];
                entities[from] = entity;
                entities[index] = first;
                assert(entities@ =~= old(self).entities@.update(from as int, entity).update(
                    index as int,
                    first,
                ));
                self.entities = entities;
                assert(is_first_match(query, old(self).entities@, from as int, index as int));
                return query.get(entity);
            }
            index += 1;
        }
        None
    }
}

} // verus!

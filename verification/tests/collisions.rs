use gardening_gun::math::Vec3;
use gardening_gun::utils::{
    events_both_ways, sensor_events_both_ways, CollisionEvent, CollisionEventFlags, EntityMatcher,
    Kind, Query,
};
use gardening_gun::ammunition::{CanPick, Pickable};
use gardening_gun::world::{Actor, World};

const SENSOR: CollisionEventFlags = CollisionEventFlags { sensor: true, removed: false };
const SOLID: CollisionEventFlags = CollisionEventFlags { sensor: false, removed: false };

#[test]
fn sensor_contacts_are_told_both_ways_round() {
    let events = vec![
        CollisionEvent::Started(1, 2, SENSOR),
        CollisionEvent::Started(3, 4, SOLID),
        CollisionEvent::Stopped(5, 6, SENSOR),
        CollisionEvent::Started(7, 8, CollisionEventFlags { sensor: true, removed: true }),
        CollisionEvent::Started(9, 9, SENSOR),
    ];
    assert_eq!(sensor_events_both_ways(&events), vec![(1, 2), (2, 1), (9, 9), (9, 9)]);
}

#[test]
fn all_contacts_that_start_are_told_both_ways_round() {
    let events = vec![
        CollisionEvent::Started(1, 2, SENSOR),
        CollisionEvent::Started(3, 4, SOLID),
        CollisionEvent::Stopped(5, 6, SOLID),
    ];
    assert_eq!(events_both_ways(&events), vec![(1, 2), (2, 1), (3, 4), (4, 3)]);
    assert!(events_both_ways(&Vec::new()).is_empty());
}

#[test]
fn the_matcher_moves_the_first_match_to_the_front() {
    let mut world = World::new();
    let plain = world.spawn(Actor::bare(0, Vec3::new(0, 0, 0)));
    let mut pickable = Actor::bare(0, Vec3::new(0, 0, 0));
    pickable.pickable = Some(Pickable);
    let pickable = world.spawn(pickable);
    let mut picker = Actor::bare(0, Vec3::new(0, 0, 0));
    picker.can_pick = Some(CanPick);
    let picker = world.spawn(picker);
    world.apply_commands();

    let mut matcher = EntityMatcher::new([plain, pickable, picker]);
    let found = matcher.get(Query { world: &world, kind: Kind::CanPick });
    assert_eq!(found.map(|actor| actor.id), Some(picker));
    assert_eq!(matcher.entities, [picker, pickable, plain]);
    assert_eq!(matcher.num_matched, 0);

    let found = matcher.get(Query { world: &world, kind: Kind::Pickable });
    assert_eq!(found.map(|actor| actor.id), Some(pickable));
    assert_eq!(matcher.entities, [pickable, picker, plain]);

    let found = matcher.get(Query { world: &world, kind: Kind::Gate });
    assert!(found.is_none());
    assert_eq!(matcher.entities, [pickable, picker, plain]);
}

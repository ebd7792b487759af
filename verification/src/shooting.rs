//! Shooting: the cooldown of the shooter, the bullets, and their end.
use bevy::time::{Timer, TimerMode};
use std::time::Duration;
use vstd::prelude::*;
use crate::ammunition::UseUpShotEvent;
use crate::math::{Vec2, Vec3};
use crate::player_controls::ShootEvent;
use crate::utils::{both_ways, sensor_events_both_ways, CollisionEvent};
use crate::world::{lookup, Actor, Command, Velocity, World, WorldView};

verus! {

/// The length of the shooter's cooldown, in microseconds.
pub const COOLDOWN: u64 = 1_000_000;

/// The time after which a bullet is removed, in microseconds.
pub const BULLET_TIMEOUT: u64 = 20_000_000;

/// The speed of a bullet, in world units per second.
pub const BULLET_SPEED: i64 = 20;

/// What a one-shot timer of length `duration` that has run for `elapsed`
/// shows after `delta` more: the time run, capped at the length.
pub open spec fn ticked(duration: u64, elapsed: u64, delta: u64) -> u64 {
    if elapsed + delta >= duration {
        duration
    } else {
        (elapsed + delta) as u64
    }
}

/// Advances a one-shot `bevy::time::Timer` by `delta` microseconds with
/// `Timer::tick`. The timer adds `delta` to the time it has run and, once
/// that reaches its length, stops there and reports itself finished.
#[verifier::external_body]
fn tick_once(duration: u64, elapsed: u64, delta: u64) -> (after: (u64, bool))
    requires
        elapsed <= duration,
    ensures
        after.0 == ticked(duration, elapsed, delta),
        after.1 == (elapsed + delta >= duration),
{
    let mut timer = Timer::new(Duration::from_micros(duration), TimerMode::Once);
    timer.set_elapsed(Duration::from_micros(elapsed));
    timer.tick(Duration::from_micros(delta));
    (timer.elapsed().as_micros() as u64, timer.finished())
}

/// A one-shot timer: it runs from zero up to its length and stays there until
/// it is reset. Times are in microseconds.
#[derive(Clone, Copy, Debug, PartialEq, Eq, Structural)]
pub struct Countdown {
    pub duration: u64,
    pub elapsed: u64,
}

impl Countdown {
    /// The time run never passes the length, and the length is not zero.
    pub open spec fn wf(&self) -> bool {
        0 < self.duration && self.elapsed <= self.duration
    }

    /// Whether the timer has run its whole length.
    pub open spec fn spec_finished(&self) -> bool {
        self.elapsed >= self.duration
    }

    /// A timer of the given length that has not run yet.
    pub fn new(duration: u64) -> (countdown: Self)
        requires
            0 < duration,
        ensures
            countdown == (Countdown { duration, elapsed: 0 }),
            countdown.wf(),
    {
        Countdown { duration, elapsed: 0 }
    }

    /// Whether the timer has run its whole length.
    #[verifier::when_used_as_spec(spec_finished)]
    pub fn finished(&self) -> (finished: bool)
        ensures
            finished == self.spec_finished(),
    {
        self.elapsed >= self.duration
    }

    /// Lets `delta` microseconds pass and says whether the timer is finished.
    pub fn tick(&mut self, delta: u64) -> (finished: bool)
        requires
            old(self).wf(),
        ensures
            final(self).wf(),
            final(self).duration == old(self).duration,
            final(self).elapsed == ticked(old(self).duration, old(self).elapsed, delta),
            finished == final(self).spec_finished(),
    {
        let after = tick_once(self.duration, self.elapsed, delta);
        self.elapsed = after.0;
        after.1
    }

    /// Starts the timer over.
    pub fn reset(&mut self)
        requires
            old(self).wf(),
        ensures
            final(self).wf(),
            final(self).duration == old(self).duration,
            final(self).elapsed == 0,
    {
        self.elapsed = 0;
    }
}

/// The ability to shoot, with the cooldown between two shots.
#[derive(Clone, Copy, Debug, PartialEq, Eq, Structural)]
pub struct CanShoot {
    pub cooldown: Countdown,
}

impl Default for CanShoot {
    /// The cooldown starts finished, so that the first shot is immediate.
    fn default() -> (can_shoot: Self)
        ensures
            can_shoot.cooldown == (Countdown { duration: COOLDOWN, elapsed: COOLDOWN }),
            can_shoot.cooldown.wf(),
            can_shoot.cooldown.spec_finished(),
    {
        let mut timer = Countdown::new(COOLDOWN);
        let duration = timer.duration;
        timer.tick(duration);
        Self { cooldown: timer }
    }
}

/// A bullet in flight, with the time it has left.
#[derive(Clone, Copy, Debug, PartialEq, Eq, Structural)]
pub struct Bullet {
    pub timeout: Countdown,
}

/// Marks what a bullet ends on.
#[derive(Clone, Copy, Debug, PartialEq, Eq, Structural)]
pub struct DestroysBullets;

/// The shooter of `event` and what it carries, where the shot can be fired:
/// the shooter exists, can shoot and carry, its cooldown is over, and it
/// carries ammunition.
pub open spec fn ready_to_shoot(world: WorldView, event: ShootEvent) -> Option<(Actor, u64)> {
    match world.get(event.shooter_entity) {
        Some(shooter) => match (shooter.can_shoot, shooter.can_carry) {
            (Some(can_shoot), Some(can_carry)) => match can_carry.carries {
                Some(carried) => if can_shoot.cooldown.spec_finished() {
                    Some((shooter, carried))
                } else {
                    None
                },
                None => None,
            },
            _ => None,
        },
        None => None,
    }
}

/// The bullet that a shooter at `position` shoots along `direction`: it starts
/// one `direction` away from the shooter, flies at twenty times `direction` a
/// second, and has twenty seconds to live.
pub open spec fn bullet_from(position: Vec3, direction: Vec3) -> Actor {
    Actor {
        velocity: Some(
            Velocity {
                linvel: Vec2 {
                    x: (BULLET_SPEED * direction.x) as i64,
                    y: (BULLET_SPEED * direction.y) as i64,
                },
                angvel: 0,
            },
        ),
        bullet: Some(Bullet { timeout: Countdown { duration: BULLET_TIMEOUT, elapsed: 0 } }),
        ..Actor::spec_bare(0, position.plus(direction).clamped())
    }
}

/// The shooter after a shot: its cooldown starts over.
pub open spec fn recoiled(shooter: Actor) -> Actor {
    match shooter.can_shoot {
        Some(can_shoot) => Actor {
            can_shoot: Some(CanShoot { cooldown: Countdown { elapsed: 0, ..can_shoot.cooldown } }),
            ..shooter
        },
        None => shooter,
    }
}

/// The world after one shoot event. Where the shot cannot be fired the event
/// is ignored.
pub open spec fn shot(world: WorldView, event: ShootEvent) -> WorldView {
    match ready_to_shoot(world, event) {
        Some((shooter, _)) => world.with_actor(shooter.id, recoiled(shooter)).with_spawn(
            bullet_from(shooter.position, event.direction),
        ),
        None => world,
    }
}

/// The use-up event that one shoot event raises: against what the shooter
/// carries, which recoils against the direction of the shot.
pub open spec fn use_up_of(world: WorldView, event: ShootEvent) -> Seq<UseUpShotEvent> {
    match ready_to_shoot(world, event) {
        Some((_, carried)) => seq![
            UseUpShotEvent {
                carrier_entity: event.shooter_entity,
                carried_ammunition_entity: carried,
                eject_direction: event.direction.negated(),
            },
        ],
        None => Seq::empty(),
    }
}

/// The world after the shoot events of a frame, handled in order.
pub open spec fn after_shots(world: WorldView, events: Seq<ShootEvent>) -> WorldView
    decreases events.len(),
{
    if events.len() == 0 {
        world
    } else {
        shot(after_shots(world, events.drop_last()), events.last())
    }
}

/// The use-up events that the shoot events of a frame raise, in order.
pub open spec fn use_ups(world: WorldView, events: Seq<ShootEvent>) -> Seq<UseUpShotEvent>
    decreases events.len(),
{
    if events.len() == 0 {
        Seq::empty()
    } else {
        use_ups(world, events.drop_last()) + use_up_of(
            after_shots(world, events.drop_last()),
            events.last(),
        )
    }
}

/// Handles one shoot event.
fn shoot(world: &mut World, event: ShootEvent) -> (use_up: Option<UseUpShotEvent>)
    requires
        old(world).wf(),
        old(world)@.has_room(1),
        event.direction.in_bounds(),
    ensures
        final(world).wf(),
        final(world)@ == shot(old(world)@, event),
        use_up_of(old(world)@, event) == match use_up {
            Some(raised) => seq![raised],
            None => Seq::empty(),
        },
        use_up matches Some(raised) ==> raised.eject_direction.in_bounds(),
        final(world)@.next_id <= old(world)@.next_id + 1,
{
    let shooter = match world.get(event.shooter_entity) {
        Some(shooter) => shooter,
        None => {
            return None;
        },
    };
    let (mut can_shoot, can_carry) = match (shooter.can_shoot, shooter.can_carry) {
        (Some(can_shoot), Some(can_carry)) => (can_shoot, can_carry),
        _ => {
            return None;
        },
    };
    if !can_shoot.cooldown.finished() {
        return None;
    }
    let carried_ammunition_entity = match can_carry.carries {
        Some(entity) => entity,
        None => {
            return None;
        },
    };
    can_shoot.cooldown.reset();
    let mut after = shooter;
    after.can_shoot = Some(can_shoot);
    world.put(shooter.id, after);
    let mut bullet = Actor::bare(0, shooter.position.add(event.direction).clamp());
    bullet.velocity = Some(
        Velocity {
            linvel: Vec2 { x: BULLET_SPEED * event.direction.x, y: BULLET_SPEED * event.direction.y },
            angvel: 0,
        },
    );
    bullet.bullet = Some(Bullet { timeout: Countdown::new(BULLET_TIMEOUT) });
    world.spawn(bullet);
    Some(
        UseUpShotEvent {
            carrier_entity: event.shooter_entity,
            carried_ammunition_entity,
            eject_direction: event.direction.neg(),
        },
    )
}

/// Fires the shots that were asked for. A shot is fired where the shooter's
/// cooldown is over and it carries ammunition: the cooldown starts over, a
/// bullet is created, and a use-up event is raised against the ammunition.
pub fn apply_shooting(world: &mut World, events: &Vec<ShootEvent>) -> (raised: Vec<UseUpShotEvent>)
    requires
        old(world).wf(),
        old(world)@.has_room(events@.len()),
        forall|i: int| 0 <= i < events@.len() ==> (#[trigger] events@[i]).direction.in_bounds(),
    ensures
        final(world).wf(),
        final(world)@ == after_shots(old(world)@, events@),
        raised@ == use_ups(old(world)@, events@),
        forall|j: int| 0 <= j < raised@.len() ==> (#[trigger] raised@[j]).eject_direction.in_bounds(),
        final(world)@.next_id <= old(world)@.next_id + events@.len(),
{
    let mut raised: Vec<UseUpShotEvent> = Vec::new();
    let mut i: usize = 0;
    assert(events@.take(0) =~= Seq::<ShootEvent>::empty());
    while i < events.len()
        invariant
            i <= events.len(),
            world.wf(),
            world@.next_id + (events@.len() - i) <= u64::MAX,
            world@.next_id <= old(world)@.next_id + i,
            forall|k: int| 0 <= k < events@.len() ==> (#[trigger] events@[k]).direction.in_bounds(),
            world@ == after_shots(old(world)@, events@.take(i as int)),
            raised@ == use_ups(old(world)@, events@.take(i as int)),
            forall|j: int|
                0 <= j < raised@.len() ==> (#[trigger] raised@[j]).eject_direction.in_bounds(),
        decreases events.len() - i,
    {
        proof {
            let upto = events@.take(i as int + 1);
            assert(upto.drop_last() =~= events@.take(i as int));
            assert(upto.last() == events@[i as int]);
        }
        match shoot(world, events[i]) {
            Some(use_up) => {
                raised.push(use_up);
            },
            None => {},
        }
        i += 1;
    }
    assert(events@.take(i as int) =~= events@);
    raised
}

/// The entity after `delta` microseconds of cooldown.
pub open spec fn cooled(actor: Actor, delta: u64) -> Actor {
    match actor.can_shoot {
        Some(can_shoot) => Actor {
            can_shoot: Some(
                CanShoot {
                    cooldown: Countdown {
                        elapsed: ticked(can_shoot.cooldown.duration, can_shoot.cooldown.elapsed, delta),
                        ..can_shoot.cooldown
                    },
                },
            ),
            ..actor
        },
        None => actor,
    }
}

/// The world after `delta` microseconds of cooldown for every shooter.
pub open spec fn after_cooldown(world: WorldView, delta: u64) -> WorldView {
    WorldView { actors: world.actors.map_values(|actor: Actor| cooled(actor, delta)), ..world }
}

/// Lets `delta` microseconds pass on the cooldown of every shooter.
pub fn update_can_shoot_cooldown(world: &mut World, delta: u64)
    requires
        old(world).wf(),
    ensures
        final(world).wf(),
        final(world)@ == after_cooldown(old(world)@, delta),
{
    let mut i: usize = 0;
    while i < world.actors.len()
        invariant
            i <= world.actors.len(),
            world.wf(),
            world@.actors.len() == old(world)@.actors.len(),
            forall|k: int| 0 <= k < i ==> world@.actors[k] == cooled(old(world)@.actors[k], delta),
            forall|k: int| i <= k < world@.actors.len() ==> world@.actors[k] == old(world)@.actors[k],
            world@.commands == old(world)@.commands,
            world@.next_id == old(world)@.next_id,
            world@.committed == old(world)@.committed,
            world@.next_state == old(world)@.next_state,
        decreases world.actors.len() - i,
    {
        let mut actor = world.actors[i];
        match actor.can_shoot {
            Some(mut can_shoot) => {
                can_shoot.cooldown.tick(delta);
                actor.can_shoot = Some(can_shoot);
                world.put_at(i, actor);
            },
            None => {},
        }
        i += 1;
    }
    assert(world@.actors =~= old(world)@.actors.map_values(|actor: Actor| cooled(actor, delta)));
}

/// The bullet after `delta` microseconds of flight.
pub open spec fn flown(actor: Actor, delta: u64) -> Actor {
    match actor.bullet {
        Some(bullet) => Actor {
            bullet: Some(
                Bullet {
                    timeout: Countdown {
                        elapsed: ticked(bullet.timeout.duration, bullet.timeout.elapsed, delta),
                        ..bullet.timeout
                    },
                },
            ),
            ..actor
        },
        None => actor,
    }
}

/// Whether the entity is a bullet whose time is over after `delta` more
/// microseconds.
pub open spec fn timed_out(actor: Actor, delta: u64) -> bool {
    actor.bullet matches Some(bullet) && bullet.timeout.elapsed + delta >= bullet.timeout.duration
}

/// The removals of the bullets among `actors` whose time is over after `delta`
/// more microseconds, oldest bullet first.
pub open spec fn timeouts(actors: Seq<Actor>, delta: u64) -> Seq<Command>
    decreases actors.len(),
{
    if actors.len() == 0 {
        Seq::empty()
    } else {
        timeouts(actors.drop_last(), delta) + (if timed_out(actors.last(), delta) {
            seq![Command::Despawn { entity: actors.last().id }]
        } else {
            Seq::empty()
        })
    }
}

/// The world after `delta` microseconds of flight for every bullet: each has
/// flown, and the removal of those whose time is over is asked for.
pub open spec fn after_timeouts(world: WorldView, delta: u64) -> WorldView {
    WorldView {
        actors: world.actors.map_values(|actor: Actor| flown(actor, delta)),
        commands: world.commands + timeouts(world.actors, delta),
        ..world
    }
}

/// Lets `delta` microseconds pass on the timeout of every bullet and asks for
/// the removal of those whose time is over.
pub fn destroy_bullets_after_timeout(world: &mut World, delta: u64)
    requires
        old(world).wf(),
    ensures
        final(world).wf(),
        final(world)@ == after_timeouts(old(world)@, delta),
{
    let mut i: usize = 0;
    assert(old(world)@.actors.take(0) =~= Seq::<Actor>::empty());
    while i < world.actors.len()
        invariant
            i <= world.actors.len(),
            world.wf(),
            world@.actors.len() == old(world)@.actors.len(),
            forall|k: int| 0 <= k < i ==> world@.actors[k] == flown(old(world)@.actors[k], delta),
            forall|k: int| i <= k < world@.actors.len() ==> world@.actors[k] == old(world)@.actors[k],
            world@.commands == old(world)@.commands + timeouts(
                old(world)@.actors.take(i as int),
                delta,
            ),
            world@.next_id == old(world)@.next_id,
            world@.committed == old(world)@.committed,
            world@.next_state == old(world)@.next_state,
        decreases world.actors.len() - i,
    {
        proof {
            let upto = old(world)@.actors.take(i as int + 1);
            assert(upto.drop_last() =~= old(world)@.actors.take(i as int));
            assert(upto.last() == old(world)@.actors[i as int]);
        }
        let mut actor = world.actors[i];
        match actor.bullet {
            Some(mut bullet) => {
                let finished = bullet.timeout.tick(delta);
                actor.bullet = Some(bullet);
                world.put_at(i, actor);
                if finished {
                    world.push_command(Command::Despawn { entity: actor.id });
                }
            },
            None => {},
        }
        i += 1;
    }
    assert(old(world)@.actors.take(i as int) =~= old(world)@.actors);
    assert(world@.actors =~= old(world)@.actors.map_values(|actor: Actor| flown(actor, delta)));
}

/// Whether the first of the pair is a bullet and the second something that
/// bullets end on.
pub open spec fn bullet_hits(actors: Seq<Actor>, pair: (u64, u64)) -> bool {
    &&& lookup(actors, pair.0) matches Some(bullet)
    &&& bullet.bullet is Some
    &&& lookup(actors, pair.1) matches Some(wall)
    &&& wall.destroys_bullets is Some
}

/// The removals of the bullets that the pairs show to have hit, in the order
/// of the pairs.
pub open spec fn bullet_ends(actors: Seq<Actor>, pairs: Seq<(u64, u64)>) -> Seq<Command>
    decreases pairs.len(),
{
    if pairs.len() == 0 {
        Seq::empty()
    } else {
        bullet_ends(actors, pairs.drop_last()) + (if bullet_hits(actors, pairs.last()) {
            seq![Command::Despawn { entity: pairs.last().0 }]
        } else {
            Seq::empty()
        })
    }
}

/// The world after the contacts of a frame were searched for bullets that
/// have hit.
pub open spec fn after_bullet_hits(world: WorldView, collisions: Seq<CollisionEvent>) -> WorldView {
    WorldView {
        commands: world.commands + bullet_ends(world.actors, both_ways(collisions, true)),
        ..world
    }
}

/// Asks for the removal of every bullet that is in sensor contact with
/// something that bullets end on.
pub fn destroy_bullet_when_colliding_with_wall(world: &mut World, collisions: &Vec<CollisionEvent>)
    requires
        old(world).wf(),
    ensures
        final(world).wf(),
        final(world)@ == after_bullet_hits(old(world)@, collisions@),
{
    let pairs = sensor_events_both_ways(collisions);
    let mut i: usize = 0;
    assert(pairs@.take(0) =~= Seq::<(u64, u64)>::empty());
    while i < pairs.len()
        invariant
            i <= pairs.len(),
            world.wf(),
            world@.actors == old(world)@.actors,
            world@.commands == old(world)@.commands + bullet_ends(
                old(world)@.actors,
                pairs@.take(i as int),
            ),
            world@.next_id == old(world)@.next_id,
            world@.committed == old(world)@.committed,
            world@.next_state == old(world)@.next_state,
        decreases pairs.len() - i,
    {
        proof {
            let upto = pairs@.take(i as int + 1);
            assert(upto.drop_last() =~= pairs@.take(i as int));
            assert(upto.last() == pairs@[i as int]);
        }
        let (e1, e2) = pairs[i];
        let is_bullet = match world.get(e1) {
            Some(actor) => actor.bullet.is_some(),
            None => false,
        };
        let destroys = match world.get(e2) {
            Some(actor) => actor.destroys_bullets.is_some(),
            None => false,
        };
        if is_bullet && destroys {
            world.push_command(Command::Despawn { entity: e1 });
        }
        i += 1;
    }
    assert(pairs@.take(i as int) =~= pairs@);
}

} // verus!

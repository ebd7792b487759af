//! What the player's input asks of the avatar.
use vstd::prelude::*;
use crate::math::{Vec3, UNIT};
use crate::world::{Actor, World, WorldView};

verus! {

/// How far the stick must be pushed for the avatar to turn.
pub const TURN_FROM: i64 = 100_000;

/// The shooter wants to shoot along `direction`.
#[derive(Clone, Copy, Debug, PartialEq, Eq, Structural)]
pub struct ShootEvent {
    pub shooter_entity: u64,
    pub direction: Vec3,
}

/// What the character controller is asked to make of an entity.
#[derive(Clone, Copy, Debug, PartialEq, Eq, Structural)]
pub struct PlatformerControls {
    /// The velocity to reach, as a part of the full speed, in millionths.
    pub desired_velocity: Vec3,
    /// The direction to face.
    pub desired_forward: Vec3,
    /// How strongly to jump, in millionths, where a jump is asked for.
    pub jump: Option<i64>,
}

/// The input for one avatar in one frame.
#[derive(Clone, Copy, Debug, PartialEq, Eq, Structural)]
pub struct PlayerInput {
    pub entity: u64,
    /// How far the stick is pushed along the first axis, between minus one
    /// and one, in millionths; nothing where there is no stick.
    pub run: Option<i64>,
    /// How far the jump button is pressed, in millionths.
    pub jump: i64,
    /// Whether the shoot button was pressed in this frame.
    pub shoot: bool,
}

/// The controls after an input: the avatar is to run as the stick says, to
/// face the way the stick is pushed where it is pushed beyond a tenth, and to
/// jump where the jump button is pressed.
pub open spec fn steered(controls: PlatformerControls, input: PlayerInput) -> PlatformerControls {
    PlatformerControls {
        desired_velocity: match input.run {
            Some(x) => Vec3 { x, y: 0, z: 0 },
            None => Vec3 { x: 0, y: 0, z: 0 },
        },
        desired_forward: match input.run {
            Some(x) => if TURN_FROM < x {
                Vec3 { x: UNIT, y: 0, z: 0 }
            } else if x < -TURN_FROM {
                Vec3 { x: (-UNIT) as i64, y: 0, z: 0 }
            } else {
                controls.desired_forward
            },
            None => controls.desired_forward,
        },
        jump: if 0 < input.jump {
            Some(input.jump)
        } else {
            None
        },
    }
}

/// The avatar of an input and its controls, where it exists and has some.
pub open spec fn controlled(world: WorldView, input: PlayerInput) -> Option<(Actor, PlatformerControls)> {
    match world.get(input.entity) {
        Some(actor) => match actor.controls {
            Some(controls) => Some((actor, controls)),
            None => None,
        },
        None => None,
    }
}

/// The world after one input.
pub open spec fn controlled_by(world: WorldView, input: PlayerInput) -> WorldView {
    match controlled(world, input) {
        Some((actor, controls)) => world.with_actor(
            actor.id,
            Actor { controls: Some(steered(controls, input)), ..actor },
        ),
        None => world,
    }
}

/// The shoot event that one input raises: along the direction that the avatar
/// faces after the input.
pub open spec fn shoot_of(world: WorldView, input: PlayerInput) -> Seq<ShootEvent> {
    match controlled(world, input) {
        Some((_, controls)) => if input.shoot {
            seq![
                ShootEvent {
                    shooter_entity: input.entity,
                    direction: steered(controls, input).desired_forward,
                },
            ]
        } else {
            Seq::empty()
        },
        None => Seq::empty(),
    }
}

/// The world after the inputs of a frame, handled in order.
pub open spec fn after_controls(world: WorldView, inputs: Seq<PlayerInput>) -> WorldView
    decreases inputs.len(),
{
    if inputs.len() == 0 {
        world
    } else {
        controlled_by(after_controls(world, inputs.drop_last()), inputs.last())
    }
}

/// The shoot events that the inputs of a frame raise, in order.
pub open spec fn shoot_events(world: WorldView, inputs: Seq<PlayerInput>) -> Seq<ShootEvent>
    decreases inputs.len(),
{
    if inputs.len() == 0 {
        Seq::empty()
    } else {
        shoot_events(world, inputs.drop_last()) + shoot_of(
            after_controls(world, inputs.drop_last()),
            inputs.last(),
        )
    }
}

/// Handles one input.
fn control(world: &mut World, input: PlayerInput) -> (raised: Option<ShootEvent>)
    requires
        old(world).wf(),
    ensures
        final(world).wf(),
        final(world)@ == controlled_by(old(world)@, input),
        shoot_of(old(world)@, input) == match raised {
            Some(event) => seq![event],
            None => Seq::empty(),
        },
        raised matches Some(event) ==> event.direction.in_bounds(),
{
    let mut actor = match world.get(input.entity) {
        Some(actor) => actor,
        None => {
            return None;
        },
    };
    let mut controls = match actor.controls {
        Some(controls) => controls,
        None => {
            return None;
        },
    };
    match input.run {
        Some(x) => {
            controls.desired_velocity = Vec3 { x, y: 0, z: 0 };
            if TURN_FROM < x {
                controls.desired_forward = Vec3 { x: UNIT, y: 0, z: 0 };
            } else if x < -TURN_FROM {
                controls.desired_forward = Vec3 { x: -UNIT, y: 0, z: 0 };
            }
        },
        None => {
            controls.desired_velocity = Vec3 { x: 0, y: 0, z: 0 };
        },
    }
    controls.jump = if 0 < input.jump {
        Some(input.jump)
    } else {
        None
    };
    actor.controls = Some(controls);
    world.put(actor.id, actor);
    if input.shoot {
        Some(ShootEvent { shooter_entity: input.entity, direction: controls.desired_forward })
    } else {
        None
    }
}

/// Steers the avatars as their inputs say and raises a shoot event for every
/// press of the shoot button, along the direction that the avatar faces.
pub fn apply_controls(world: &mut World, inputs: &Vec<PlayerInput>) -> (raised: Vec<ShootEvent>)
    requires
        old(world).wf(),
    ensures
        final(world).wf(),
        final(world)@ == after_controls(old(world)@, inputs@),
        raised@ == shoot_events(old(world)@, inputs@),
        forall|j: int| 0 <= j < raised@.len() ==> (#[trigger] raised@[j]).direction.in_bounds(),
        raised@.len() <= inputs@.len(),
        final(world)@.next_id == old(world)@.next_id,
{
    let mut raised: Vec<ShootEvent> = Vec::new();
    let mut i: usize = 0;
    assert(inputs@.take(0) =~= Seq::<PlayerInput>::empty());
    while i < inputs.len()
        invariant
            i <= inputs.len(),
            world.wf(),
            world@ == after_controls(old(world)@, inputs@.take(i as int)),
            raised@ == shoot_events(old(world)@, inputs@.take(i as int)),
            forall|j: int| 0 <= j < raised@.len() ==> (#[trigger] raised@[j]).direction.in_bounds(),
            raised@.len() <= i,
            world@.next_id == old(world)@.next_id,
        decreases inputs.len() - i,
    {
        proof {
            let upto = inputs@.take(i as int + 1);
            assert(upto.drop_last() =~= inputs@.take(i as int));
            assert(upto.last() == inputs@[i as int]);
        }
        match control(world, inputs[i]) {
            Some(event) => {
                raised.push(event);
            },
            None => {},
        }
        i += 1;
    }
    assert(inputs@.take(i as int) =~= inputs@);
    raised
}

} // verus!

//! The order of a frame: which system runs after which, and what flows from
//! one to the next.
use vstd::prelude::*;
use crate::ammunition::{
    after_pickups, after_use_ups, handle_carrying, handle_useup, initiate_pickup, pickups,
};
use crate::animating::{after_initial_animations, set_initial_animation};
use crate::gate::{after_gate_opening, after_gate_passing, initiate_gate_opening, pass_through_gate};
use crate::goblin::{after_facing, goblins_face_player, handle_goblin_hitting_stuff, hits};
use crate::killing::{
    after_game_over, after_kills, fallen, game_over_when_killing_player, handle_killing,
    kill_player_when_they_fall, KillEvent,
};
use crate::math::DELTA_MAX;
use crate::planting::{after_growing, after_landings, apply_growing, initiate_planting};
use crate::player::{after_animating, animate_player, AnimatingOutput};
use crate::player_controls::{after_controls, apply_controls, shoot_events, PlayerInput, ShootEvent};
use crate::shooting::{
    after_bullet_hits, after_cooldown, after_shots, after_timeouts, apply_shooting,
    destroy_bullet_when_colliding_with_wall, destroy_bullets_after_timeout,
    update_can_shoot_cooldown, use_ups,
};
use crate::utils::{both_ways, CollisionEvent};
use crate::world::{applied_all, Command, World, WorldView};
use crate::AppState;

verus! {

/// What the engine reports of a frame.
pub struct FrameInput {
    /// The time since the last frame, in microseconds.
    pub delta: u64,
    /// The contacts that started or ended.
    pub collisions: Vec<CollisionEvent>,
    /// The input for each avatar.
    pub inputs: Vec<PlayerInput>,
    /// What the character controller reports of each avatar whose armature
    /// is there.
    pub animating: Vec<AnimatingOutput>,
    /// The entities whose initial animation can begin: its player and its
    /// clip are there.
    pub ready_animations: Vec<u64>,
}

/// What the systems that run only while the game is played make of the
/// world, with the shoot events and the kill events that they raise. The
/// gates are looked at first, so that they open in the frame after the last
/// of their keepers died.
pub open spec fn played(
    world: WorldView,
    delta: u64,
    inputs: Seq<PlayerInput>,
    animating: Seq<AnimatingOutput>,
) -> (WorldView, Seq<ShootEvent>, Seq<KillEvent>) {
    let opened = after_gate_opening(world);
    let steered = after_controls(opened, inputs);
    let cooled = after_cooldown(steered, delta);
    let flown = after_timeouts(cooled, delta);
    let grown = after_growing(flown, delta);
    let faced = after_facing(grown);
    (after_animating(faced, animating), shoot_events(opened, inputs), fallen(faced.actors))
}

/// What the systems that run in every state make of the world: pickups are
/// found and handled, the shots are fired and their ammunition is used up,
/// bullets end, seeds are planted, goblins hit, the kill events are handled,
/// a passage through an open gate is noted, and initial animations begin.
pub open spec fn handled(
    world: WorldView,
    collisions: Seq<CollisionEvent>,
    shoots: Seq<ShootEvent>,
    falls: Seq<KillEvent>,
    ready: Seq<u64>,
) -> WorldView {
    let carried = after_pickups(world, pickups(world.actors, both_ways(collisions, true)));
    let fired = after_shots(carried, shoots);
    let used = after_use_ups(fired, use_ups(carried, shoots));
    let hit = after_bullet_hits(used, collisions);
    let planted = after_landings(hit, both_ways(collisions, false));
    let kills = falls + hits(planted.actors, both_ways(collisions, false));
    let over = after_game_over(after_kills(planted, kills), kills);
    after_initial_animations(after_gate_passing(over, collisions), ready)
}

/// The world at the end of a frame, before its commands are applied.
pub open spec fn frame(
    world: WorldView,
    state: AppState,
    delta: u64,
    collisions: Seq<CollisionEvent>,
    inputs: Seq<PlayerInput>,
    animating: Seq<AnimatingOutput>,
    ready: Seq<u64>,
) -> WorldView {
    if state == AppState::Game {
        let (world, shoots, falls) = played(world, delta, inputs, animating);
        handled(world, collisions, shoots, falls, ready)
    } else {
        handled(world, collisions, Seq::empty(), Seq::empty(), ready)
    }
}

/// Runs the systems of a frame in their order, applies the commands they
/// made, and hands the commands out for the engine to follow. The state that
/// was asked for, if any, is left in the world.
pub fn run_frame(world: &mut World, state: AppState, input: &FrameInput) -> (commands: Vec<Command>)
    requires
        old(world).wf(),
        input.delta <= DELTA_MAX,
        old(world)@.has_room(input.inputs@.len() + 4 * input.collisions@.len()),
    ensures
        final(world).wf(),
        ({
            let end = frame(
                old(world)@,
                state,
                input.delta,
                input.collisions@,
                input.inputs@,
                input.animating@,
                input.ready_animations@,
            );
            &&& commands@ == end.commands
            &&& final(world)@.actors == applied_all(end.actors, end.commands)
            &&& final(world)@.commands.len() == 0
            &&& final(world)@.next_state == end.next_state
            &&& final(world)@.next_id == end.next_id
            &&& final(world)@.committed == end.next_id
        }),
{
    let mut shoots: Vec<ShootEvent> = Vec::new();
    let mut kills: Vec<KillEvent> = Vec::new();
    if matches!(state, AppState::Game) {
        initiate_gate_opening(world);
        shoots = apply_controls(world, &input.inputs);
        update_can_shoot_cooldown(world, input.delta);
        destroy_bullets_after_timeout(world, input.delta);
        apply_growing(world, input.delta);
        goblins_face_player(world);
        kills = kill_player_when_they_fall(world);
        animate_player(world, &input.animating);
    }
    let ghost falls = kills@;
    let picks = initiate_pickup(world, &input.collisions);
    handle_carrying(world, &picks);
    let raised = apply_shooting(world, &shoots);
    handle_useup(world, &raised);
    destroy_bullet_when_colliding_with_wall(world, &input.collisions);
    initiate_planting(world, &input.collisions);
    let mut hits = handle_goblin_hitting_stuff(world, &input.collisions);
    kills.append(&mut hits);
    handle_killing(world, &kills);
    game_over_when_killing_player(world, &kills);
    pass_through_gate(world, &input.collisions);
    set_initial_animation(world, &input.ready_animations);
    world.apply_commands()
}

} // verus!

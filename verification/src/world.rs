//! The table of entities, and the buffer of changes that wait for the end of
//! the frame.
//!
//! An entity is a record with an id and the components it has. Systems change
//! components at once; they create and remove entities, and add and take away
//! the components that tell an entity's kind, through commands that are
//! applied together, by [`World::apply_commands`].
use vstd::prelude::*;
use crate::ammunition::{CanCarry, CanPick, CarriedAmmunition, Pickable};
use crate::animating::{
    Animation, AnimationPlayerName, AnimationsOwner, ApplyRotationToChild, InitialAnimation,
};
use crate::editing_helpers::GridSize;
use crate::gate::{Gate, KeepGatesClosedWhenAlive};
use crate::goblin::IsGoblin;
use crate::killing::{KillPlayerWhenBelow, Killable};
use crate::math::{coord_in_bounds, Vec2, Vec3, UNIT};
use crate::planting::{FertileGround, FlyingSeed, Growing, PlantType};
use crate::player::{AnimatingState, IsPlayer};
use crate::player_controls::PlatformerControls;
use crate::shooting::{Bullet, CanShoot, DestroysBullets};
use crate::AppState;

verus! {

/// Marks an entity that came with the level and goes with it.
#[derive(Clone, Copy, Debug, PartialEq, Eq, Structural)]
pub struct BelongsToLevel;

/// The velocity that a body is given: along the plane of play, in millionths
/// of a unit per second, and around its axis, in millionths of a radian per
/// second.
#[derive(Clone, Copy, Debug, PartialEq, Eq, Structural)]
pub struct Velocity {
    pub linvel: Vec2,
    pub angvel: i64,
}

/// An entity: its id and the components it has.
#[derive(Clone, Copy, Debug, PartialEq, Eq, Structural)]
pub struct Actor {
    pub id: u64,
    pub parent: Option<u64>,
    pub position: Vec3,
    /// The scale, the same along the three axes.
    pub scale: i64,
    pub velocity: Option<Velocity>,
    pub is_player: Option<IsPlayer>,
    pub is_goblin: Option<IsGoblin>,
    pub can_pick: Option<CanPick>,
    pub pickable: Option<Pickable>,
    pub destroys_bullets: Option<DestroysBullets>,
    pub keep_gates_closed: Option<KeepGatesClosedWhenAlive>,
    pub fertile_ground: Option<FertileGround>,
    pub flying_seed: Option<FlyingSeed>,
    pub growing: Option<Growing>,
    pub kill_player_when_below: Option<KillPlayerWhenBelow>,
    pub belongs_to_level: Option<BelongsToLevel>,
    pub animations_owner: Option<AnimationsOwner>,
    pub apply_rotation_to_child: Option<ApplyRotationToChild>,
    pub killable: Option<Killable>,
    pub can_carry: Option<CanCarry>,
    pub carried_ammunition: Option<CarriedAmmunition>,
    pub plant_type: Option<PlantType>,
    pub can_shoot: Option<CanShoot>,
    pub bullet: Option<Bullet>,
    pub gate: Option<Gate>,
    pub grid_size: Option<GridSize>,
    pub initial_animation: Option<InitialAnimation>,
    pub animating_state: Option<AnimatingState>,
    pub controls: Option<PlatformerControls>,
}

impl Actor {
    /// An entity at `position`, of full size, without any component.
    pub open spec fn spec_bare(id: u64, position: Vec3) -> Actor {
        Actor {
            id,
            parent: None,
            position,
            scale: UNIT,
            velocity: None,
            is_player: None,
            is_goblin: None,
            can_pick: None,
            pickable: None,
            destroys_bullets: None,
            keep_gates_closed: None,
            fertile_ground: None,
            flying_seed: None,
            growing: None,
            kill_player_when_below: None,
            belongs_to_level: None,
            animations_owner: None,
            apply_rotation_to_child: None,
            killable: None,
            can_carry: None,
            carried_ammunition: None,
            plant_type: None,
            can_shoot: None,
            bullet: None,
            gate: None,
            grid_size: None,
            initial_animation: None,
            animating_state: None,
            controls: None,
        }
    }

    /// An entity at `position`, of full size, without any component.
    #[verifier::when_used_as_spec(spec_bare)]
    pub fn bare(id: u64, position: Vec3) -> (actor: Actor)
        ensures
            actor == Actor::spec_bare(id, position),
    {
        Actor {
            id,
            parent: None,
            position,
            scale: UNIT,
            velocity: None,
            is_player: None,
            is_goblin: None,
            can_pick: None,
            pickable: None,
            destroys_bullets: None,
            keep_gates_closed: None,
            fertile_ground: None,
            flying_seed: None,
            growing: None,
            kill_player_when_below: None,
            belongs_to_level: None,
            animations_owner: None,
            apply_rotation_to_child: None,
            killable: None,
            can_carry: None,
            carried_ammunition: None,
            plant_type: None,
            can_shoot: None,
            bullet: None,
            gate: None,
            grid_size: None,
            initial_animation: None,
            animating_state: None,
            controls: None,
        }
    }

    /// What holds of every stored entity whatever its id: position, scale and
    /// the direction it is steered to face are within range, and the timers
    /// are sound.
    pub open spec fn body_wf(&self) -> bool {
        &&& self.position.in_bounds()
        &&& coord_in_bounds(self.scale)
        &&& (self.can_shoot matches Some(can_shoot) ==> can_shoot.cooldown.wf())
        &&& (self.bullet matches Some(bullet) ==> bullet.timeout.wf())
        &&& (self.controls matches Some(controls) ==> controls.desired_forward.in_bounds())
    }

    /// What holds of every stored entity: it is sound, and a parent is older
    /// than its child.
    pub open spec fn wf(&self) -> bool {
        &&& self.body_wf()
        &&& (self.parent matches Some(parent) ==> parent < self.id)
    }
}

/// A change that waits for the end of the frame, or a request to the engine.
#[derive(Clone, Copy, Debug, PartialEq, Eq, Structural)]
pub enum Command {
    /// Create the entity.
    Spawn { actor: Actor },
    /// Remove the entity and what descends from it.
    Despawn { entity: u64 },
    /// Free carried ammunition from its parent and let it fly as a seed with
    /// the given velocity.
    Eject { entity: u64, velocity: Velocity },
    /// Bullets no longer end on the entity.
    RemoveDestroysBullets { entity: u64 },
    /// The entity has reached its full size.
    RemoveGrowing { entity: u64 },
    /// The entity has begun its initial animation.
    RemoveInitialAnimation { entity: u64 },
    /// Play a clip on a named player of the entity.
    PlayAnimation { owner: u64, animation: Animation },
    /// Change the speed at which a named player of the entity plays, to so
    /// many millionths of the clip's own speed.
    SetAnimationSpeed { owner: u64, player: AnimationPlayerName, speed: i64 },
    /// Move the entity by the given offset.
    Translate { entity: u64, by: Vec3 },
    /// Turn the entity to face along the given direction.
    Face { entity: u64, forward: Vec3 },
}

/// The entities, the changes that wait, and the state that is asked for next.
pub struct World {
    /// The entities, oldest first.
    pub actors: Vec<Actor>,
    /// The changes and requests of this frame, in the order they were made.
    pub commands: Vec<Command>,
    /// The id that the next entity gets.
    pub next_id: u64,
    /// The value of `next_id` when the commands were last applied.
    pub committed: u64,
    /// The state that the application is to enter next, where one was asked
    /// for.
    pub next_state: Option<AppState>,
}

/// The mathematical content of a [`World`].
pub struct WorldView {
    pub actors: Seq<Actor>,
    pub commands: Seq<Command>,
    pub next_id: u64,
    pub committed: u64,
    pub next_state: Option<AppState>,
}

impl View for World {
    type V = WorldView;

    open spec fn view(&self) -> WorldView {
        WorldView {
            actors: self.actors@,
            commands: self.commands@,
            next_id: self.next_id,
            committed: self.committed,
            next_state: self.next_state,
        }
    }
}

/// The ids of `actors` grow strictly: no two entities share one.
pub open spec fn ids_increase(actors: Seq<Actor>) -> bool {
    forall|i: int, j: int| 0 <= i < j < actors.len() ==> actors[i].id < actors[j].id
}

/// The place of the entity `id` in `actors`, if it is there.
pub open spec fn index_of(actors: Seq<Actor>, id: u64) -> Option<int> {
    if exists|i: int| 0 <= i < actors.len() && actors[i].id == id {
        Some(choose|i: int| 0 <= i < actors.len() && actors[i].id == id)
    } else {
        None
    }
}

/// The entity `id` of `actors`, if it is there.
pub open spec fn lookup(actors: Seq<Actor>, id: u64) -> Option<Actor> {
    match index_of(actors, id) {
        Some(i) => Some(actors[i]),
        None => None,
    }
}

/// `actors` with the entity `id`, if it is there, replaced by `actor`.
pub open spec fn replaced(actors: Seq<Actor>, id: u64, actor: Actor) -> Seq<Actor> {
    match index_of(actors, id) {
        Some(i) => actors.update(i, actor),
        None => actors,
    }
}

/// Whether the entity at the place `i` of `actors` is the entity `root` or
/// descends from it: its parent, its parent's parent and so on.
pub open spec fn in_subtree(actors: Seq<Actor>, root: u64, i: int) -> bool
    decreases i,
{
    &&& 0 <= i < actors.len()
    &&& (actors[i].id == root || (actors[i].parent matches Some(parent) && (index_of(
        actors,
        parent,
    ) matches Some(j) && 0 <= j < i && in_subtree(actors, root, j))))
}

/// The first `n` of `actors` without the entity `root` and what descends from
/// it.
pub open spec fn surviving(actors: Seq<Actor>, root: u64, n: int) -> Seq<Actor>
    decreases n,
{
    if n <= 0 {
        Seq::empty()
    } else if in_subtree(actors, root, n - 1) {
        surviving(actors, root, n - 1)
    } else {
        surviving(actors, root, n - 1).push(actors[n - 1])
    }
}

/// `actors` without the entity `root` and what descends from it.
pub open spec fn without_subtree(actors: Seq<Actor>, root: u64) -> Seq<Actor> {
    surviving(actors, root, actors.len() as int)
}

/// Where `index_of` finds an entity, it is the only place that holds its id.
pub proof fn lemma_index_of(actors: Seq<Actor>, id: u64)
    requires
        ids_increase(actors),
    ensures
        match index_of(actors, id) {
            Some(i) => 0 <= i < actors.len() && actors[i].id == id && forall|j: int|
                0 <= j < actors.len() && actors[j].id == id ==> j == i,
            None => forall|j: int| 0 <= j < actors.len() ==> actors[j].id != id,
        },
{
}

/// Finds the place of the entity `id` in `actors`.
pub fn find_actor(actors: &Vec<Actor>, id: u64) -> (found: Option<usize>)
    requires
        ids_increase(actors@),
    ensures
        match found {
            Some(i) => index_of(actors@, id) == Some(i as int) && i < actors@.len() && actors@[i as int].id
                == id,
            None => index_of(actors@, id) is None,
        },
{
    let mut i: usize = 0;
    while i < actors.len()
        invariant
            ids_increase(actors@),
            i <= actors.len(),
            forall|j: int| 0 <= j < i ==> actors@[j].id != id,
        decreases actors.len() - i,
    {
        if actors[i].id == id {
            proof {
                lemma_index_of(actors@, id);
            }
            return Some(i);
        }
        i += 1;
    }
    None
}

/// The entity as a seed in flight: free of its parent, with the velocity it
/// was shot out with.
pub open spec fn ejected(actor: Actor, velocity: Velocity) -> Actor {
    Actor { parent: None, velocity: Some(velocity), flying_seed: Some(FlyingSeed), ..actor }
}

/// What a command does to the entities when the commands are applied. A
/// command that names an entity that is not there does nothing.
pub open spec fn applied(actors: Seq<Actor>, command: Command) -> Seq<Actor> {
    match command {
        Command::Spawn { actor } => actors.push(actor),
        Command::Despawn { entity } => without_subtree(actors, entity),
        Command::Eject { entity, velocity } => match lookup(actors, entity) {
            Some(actor) => replaced(actors, entity, ejected(actor, velocity)),
            None => actors,
        },
        Command::RemoveDestroysBullets { entity } => match lookup(actors, entity) {
            Some(actor) => replaced(actors, entity, Actor { destroys_bullets: None, ..actor }),
            None => actors,
        },
        Command::RemoveGrowing { entity } => match lookup(actors, entity) {
            Some(actor) => replaced(actors, entity, Actor { growing: None, ..actor }),
            None => actors,
        },
        Command::RemoveInitialAnimation { entity } => match lookup(actors, entity) {
            Some(actor) => replaced(actors, entity, Actor { initial_animation: None, ..actor }),
            None => actors,
        },
        Command::PlayAnimation { .. } => actors,
        Command::SetAnimationSpeed { .. } => actors,
        Command::Translate { .. } => actors,
        Command::Face { .. } => actors,
    }
}

/// What the commands do to the entities, applied in order.
pub open spec fn applied_all(actors: Seq<Actor>, commands: Seq<Command>) -> Seq<Actor>
    decreases commands.len(),
{
    if commands.len() == 0 {
        actors
    } else {
        applied(applied_all(actors, commands.drop_last()), commands.last())
    }
}

/// What [`World::apply_commands`] keeps true of the entities while it works
/// through the commands from `done` on.
pub open spec fn applying(
    actors: Seq<Actor>,
    commands: Seq<Command>,
    done: int,
    next_id: u64,
) -> bool {
    &&& ids_increase(actors)
    &&& forall|i: int| 0 <= i < actors.len() ==> (#[trigger] actors[i]).wf() && actors[i].id < next_id
    &&& forall|i: int, l: int|
        #![trigger actors[i], commands[l]]
        0 <= i < actors.len() && done <= l < commands.len() ==> (commands[l] matches Command::Spawn {
            actor,
        } ==> actors[i].id < actor.id)
}

/// Whether `ids` holds `id`.
pub fn holds(ids: &Vec<u64>, id: u64) -> (found: bool)
    ensures
        found == ids@.contains(id),
{
    let mut i: usize = 0;
    while i < ids.len()
        invariant
            i <= ids.len(),
            forall|j: int| 0 <= j < i ==> ids@[j] != id,
        decreases ids.len() - i,
    {
        if ids[i] == id {
            return true;
        }
        i += 1;
    }
    false
}

/// Removes the entity `root` and what descends from it.
fn remove_subtree(
    actors: &mut Vec<Actor>,
    root: u64,
    Ghost(commands): Ghost<Seq<Command>>,
    Ghost(done): Ghost<int>,
    Ghost(next_id): Ghost<u64>,
)
    requires
        applying(old(actors)@, commands, done, next_id),
    ensures
        final(actors)@ == without_subtree(old(actors)@, root),
        applying(final(actors)@, commands, done + 1, next_id),
{
    let ghost before = actors@;
    let mut kept: Vec<Actor> = Vec::new();
    let mut gone: Vec<u64> = Vec::new();
    let mut i: usize = 0;
    while i < actors.len()
        invariant
            i <= actors.len(),
            actors@ == before,
            applying(before, commands, done, next_id),
            kept@ == surviving(before, root, i as int),
            forall|id: u64|
                gone@.contains(id) <==> exists|j: int|
                    0 <= j < i && (#[trigger] before[j]).id == id && in_subtree(before, root, j),
            forall|k: int|
                0 <= k < kept@.len() ==> exists|j: int| 0 <= j < i && #[trigger] kept@[k] == before[j],
            ids_increase(kept@),
        decreases actors.len() - i,
    {
        let actor = actors[i];
        let below_gone = match actor.parent {
            Some(parent) => holds(&gone, parent),
            None => false,
        };
        let doomed = actor.id == root || below_gone;
        proof {
            match actor.parent {
                Some(parent) => {
                    lemma_index_of(before, parent);
                    if below_gone {
                        let j = choose|j: int|
                            0 <= j < i && (#[trigger] before[j]).id == parent && in_subtree(
                                before,
                                root,
                                j,
                            );
                        assert(index_of(before, parent) == Some(j));
                    }
                    if in_subtree(before, root, i as int) && actor.id != root {
                        let j = index_of(before, parent).unwrap();
                        assert(before[j].id == parent);
                    }
                },
                None => {},
            }
            assert(doomed == in_subtree(before, root, i as int));
        }
        let ghost gone_before = gone@;
        let ghost kept_before = kept@;
        if doomed {
            gone.push(actor.id);
            proof {
                assert forall|id: u64|
                    gone@.contains(id) <==> exists|j: int|
                        0 <= j < i + 1 && (#[trigger] before[j]).id == id && in_subtree(
                            before,
                            root,
                            j,
                        ) by {
                    if gone@.contains(id) {
                        let k = choose|k: int| 0 <= k < gone@.len() && gone@[k] == id;
                        if k < gone_before.len() {
                            assert(gone_before[k] == id);
                            assert(gone_before.contains(id));
                        } else {
                            assert(before[i as int].id == id);
                        }
                    }
                    if exists|j: int|
                        0 <= j < i + 1 && (#[trigger] before[j]).id == id && in_subtree(
                            before,
                            root,
                            j,
                        ) {
                        let j = choose|j: int|
                            0 <= j < i + 1 && (#[trigger] before[j]).id == id && in_subtree(
                                before,
                                root,
                                j,
                            );
                        if j < i {
                            assert(gone_before.contains(id));
                            let k = choose|k: int| 0 <= k < gone_before.len() && gone_before[k] == id;
                            assert(gone@[k] == id);
                        } else {
                            assert(gone@[gone_before.len() as int] == id);
                        }
                    }
                }
                assert forall|k: int| 0 <= k < kept@.len() implies exists|j: int|
                    0 <= j < i + 1 && #[trigger] kept@[k] == before[j] by {
                    let j = choose|j: int| 0 <= j < i && kept@[k] == before[j];
                    assert(kept@[k] == before[j]);
                }
            }
        } else {
            kept.push(actor);
            proof {
                assert forall|id: u64|
                    gone@.contains(id) <==> exists|j: int|
                        0 <= j < i + 1 && (#[trigger] before[j]).id == id && in_subtree(
                            before,
                            root,
                            j,
                        ) by {
                    if exists|j: int|
                        0 <= j < i + 1 && (#[trigger] before[j]).id == id && in_subtree(
                            before,
                            root,
                            j,
                        ) {
                        let j = choose|j: int|
                            0 <= j < i + 1 && (#[trigger] before[j]).id == id && in_subtree(
                                before,
                                root,
                                j,
                            );
                        assert(j < i);
                    }
                    if gone@.contains(id) {
                        let j = choose|j: int|
                            0 <= j < i && (#[trigger] before[j]).id == id && in_subtree(
                                before,
                                root,
                                j,
                            );
                        assert(0 <= j < i + 1);
                    }
                }
                assert forall|k: int| 0 <= k < kept@.len() implies exists|j: int|
                    0 <= j < i + 1 && #[trigger] kept@[k] == before[j] by {
                    if k < kept_before.len() {
                        let j = choose|j: int| 0 <= j < i && kept_before[k] == before[j];
                        assert(kept@[k] == before[j]);
                    } else {
                        assert(kept@[k] == before[i as int]);
                    }
                }
                assert forall|k: int, l: int| 0 <= k < l < kept@.len() implies kept@[k].id
                    < kept@[l].id by {
                    if l < kept_before.len() {
                        assert(kept_before[k].id < kept_before[l].id);
                    } else {
                        let j = choose|j: int| 0 <= j < i && kept_before[k] == before[j];
                        assert(before[j].id < before[i as int].id);
                    }
                }
            }
        }
        i += 1;
    }
    proof {
        assert forall|k: int| 0 <= k < kept@.len() implies (#[trigger] kept@[k]).wf() && kept@[k].id
            < next_id by {
            let j = choose|j: int| 0 <= j < i && kept@[k] == before[j];
            assert(before[j].wf());
        }
        assert forall|k: int, l: int|
            #![trigger kept@[k], commands[l]]
            0 <= k < kept@.len() && done + 1 <= l < commands.len() implies (commands[l] matches Command::Spawn {
            actor,
        } ==> kept@[k].id < actor.id) by {
            let j = choose|j: int| 0 <= j < i && kept@[k] == before[j];
            if commands[l] is Spawn {
                assert(before[j].id < commands[l]->actor.id);
            }
        }
    }
    *actors = kept;
}

/// Applies one command to the entities.
fn apply_command(
    actors: &mut Vec<Actor>,
    command: Command,
    Ghost(commands): Ghost<Seq<Command>>,
    Ghost(done): Ghost<int>,
    Ghost(world): Ghost<WorldView>,
)
    requires
        world.spawns_wf(),
        commands == world.commands,
        0 <= done < commands.len(),
        command == commands[done],
        applying(old(actors)@, commands, done, world.next_id),
    ensures
        final(actors)@ == applied(old(actors)@, command),
        applying(final(actors)@, commands, done + 1, world.next_id),
{
    let ghost before = actors@;
    match command {
        Command::Spawn { actor } => {
            actors.push(actor);
            proof {
                let after = actors@;
                assert(commands[done] matches Command::Spawn { actor: a } && a == actor);
                assert forall|i: int, j: int| 0 <= i < j < after.len() implies after[i].id
                    < after[j].id by {
                    if j < before.len() {
                        assert(before[i].id < before[j].id);
                    } else {
                        assert(after[i] == before[i]);
                    }
                }
                assert forall|i: int, l: int|
                    #![trigger after[i], commands[l]]
                    0 <= i < after.len() && done + 1 <= l < commands.len() implies (
                commands[l] matches Command::Spawn { actor } ==> after[i].id < actor.id) by {
                    if i < before.len() {
                        assert(after[i] == before[i]);
                    }
                }
            }
        },
        Command::Despawn { entity } => {
            remove_subtree(actors, entity, Ghost(commands), Ghost(done), Ghost(world.next_id));
        },
        Command::Eject { entity, velocity } => {
            match find_actor(actors, entity) {
                Some(i) => {
                    let mut actor = actors[i];
                    actor.parent = None;
                    actor.velocity = Some(velocity);
                    actor.flying_seed = Some(FlyingSeed);
                    actors[i] = actor;
                    proof {
                        lemma_replace_keeps(before, commands, done, world.next_id, i as int, actor);
                    }
                },
                None => {},
            }
        },
        Command::RemoveDestroysBullets { entity } => {
            match find_actor(actors, entity) {
                Some(i) => {
                    let mut actor = actors[i];
                    actor.destroys_bullets = None;
                    actors[i] = actor;
                    proof {
                        lemma_replace_keeps(before, commands, done, world.next_id, i as int, actor);
                    }
                },
                None => {},
            }
        },
        Command::RemoveGrowing { entity } => {
            match find_actor(actors, entity) {
                Some(i) => {
                    let mut actor = actors[i];
                    actor.growing = None;
                    actors[i] = actor;
                    proof {
                        lemma_replace_keeps(before, commands, done, world.next_id, i as int, actor);
                    }
                },
                None => {},
            }
        },
        Command::RemoveInitialAnimation { entity } => {
            match find_actor(actors, entity) {
                Some(i) => {
                    let mut actor = actors[i];
                    actor.initial_animation = None;
                    actors[i] = actor;
                    proof {
                        lemma_replace_keeps(before, commands, done, world.next_id, i as int, actor);
                    }
                },
                None => {},
            }
        },
        Command::PlayAnimation { .. } => {},
        Command::SetAnimationSpeed { .. } => {},
        Command::Translate { .. } => {},
        Command::Face { .. } => {},
    }
}

/// Replacing an entity by a sound one with the same id keeps what
/// [`applying`] states.
proof fn lemma_replace_keeps(
    actors: Seq<Actor>,
    commands: Seq<Command>,
    done: int,
    next_id: u64,
    i: int,
    actor: Actor,
)
    requires
        applying(actors, commands, done, next_id),
        0 <= i < actors.len(),
        actor.id == actors[i].id,
        actor.wf(),
    ensures
        applying(actors.update(i, actor), commands, done + 1, next_id),
{
    let after = actors.update(i, actor);
    assert forall|k: int, l: int| 0 <= k < l < after.len() implies after[k].id < after[l].id by {
        assert(actors[k].id < actors[l].id);
    }
    assert forall|k: int| 0 <= k < after.len() implies (#[trigger] after[k]).wf() && after[k].id
        < next_id by {
        assert(actors[k].wf());
    }
    assert forall|k: int, l: int|
        #![trigger after[k], commands[l]]
        0 <= k < after.len() && done + 1 <= l < commands.len() implies (commands[l] matches Command::Spawn {
        actor,
    } ==> after[k].id < actor.id) by {
        assert(actors[k].id == after[k].id);
        if commands[l] is Spawn {
            assert(actors[k].id < commands[l]->actor.id);
        }
    }
}

/// Replacing an entity by one with the same id changes what is found under
/// that id and nothing else.
pub proof fn lemma_lookup_replaced(actors: Seq<Actor>, id: u64, actor: Actor, other: u64)
    requires
        ids_increase(actors),
        lookup(actors, id) is Some,
        actor.id == id,
    ensures
        ids_increase(replaced(actors, id, actor)),
        replaced(actors, id, actor).len() == actors.len(),
        lookup(replaced(actors, id, actor), other) == if other == id {
            Some(actor)
        } else {
            lookup(actors, other)
        },
{
    lemma_index_of(actors, id);
    lemma_index_of(actors, other);
    let i = index_of(actors, id).unwrap();
    let after = replaced(actors, id, actor);
    assert(after == actors.update(i, actor));
    assert forall|k: int, l: int| 0 <= k < l < after.len() implies after[k].id < after[l].id by {
        assert(actors[k].id < actors[l].id);
    }
    lemma_index_of(after, other);
    if other == id {
        assert(after[i].id == other);
    } else {
        match index_of(actors, other) {
            Some(j) => {
                assert(after[j].id == other);
            },
            None => {
                assert forall|k: int| 0 <= k < after.len() implies after[k].id != other by {
                    assert(actors[k].id == after[k].id);
                }
            },
        }
    }
}

/// Ejection makes a seed of the entity it names and of no other: the entity
/// is free of its parent, in flight, and has the velocity it was ejected with.
pub proof fn lemma_eject_makes_seed(actors: Seq<Actor>, entity: u64, velocity: Velocity, other: u64)
    requires
        ids_increase(actors),
        lookup(actors, entity) is Some,
    ensures
        lookup(applied(actors, Command::Eject { entity, velocity }), other) == if other == entity {
            Some(
                Actor {
                    parent: None,
                    velocity: Some(velocity),
                    flying_seed: Some(FlyingSeed),
                    ..lookup(actors, entity).unwrap()
                },
            )
        } else {
            lookup(actors, other)
        },
{
    lemma_index_of(actors, entity);
    let actor = lookup(actors, entity).unwrap();
    lemma_lookup_replaced(actors, entity, ejected(actor, velocity), other);
}

/// Nothing that survives a removal is the entity removed or a child of
/// something removed, and everything else survives, in its old order.
pub proof fn lemma_subtree_removed(actors: Seq<Actor>, root: u64, n: int)
    requires
        0 <= n <= actors.len(),
    ensures
        forall|k: int|
            0 <= k < surviving(actors, root, n).len() ==> exists|i: int|
                0 <= i < n && !in_subtree(actors, root, i) && actors[i] == #[trigger] surviving(
                    actors,
                    root,
                    n,
                )[k],
        forall|i: int|
            0 <= i < n && !in_subtree(actors, root, i) ==> surviving(actors, root, n).contains(
                #[trigger] actors[i],
            ),
        forall|k: int|
            0 <= k < surviving(actors, root, n).len() ==> (#[trigger] surviving(
                actors,
                root,
                n,
            )[k]).id != root,
    decreases n,
{
    if n > 0 {
        lemma_subtree_removed(actors, root, n - 1);
        let before = surviving(actors, root, n - 1);
        let after = surviving(actors, root, n);
        assert forall|k: int| 0 <= k < after.len() implies exists|i: int|
            0 <= i < n && !in_subtree(actors, root, i) && actors[i] == #[trigger] after[k] by {
            if k < before.len() {
                let i = choose|i: int|
                    0 <= i < n - 1 && !in_subtree(actors, root, i) && actors[i] == before[k];
                assert(actors[i] == after[k]);
            } else {
                assert(actors[n - 1] == after[k]);
            }
        }
        assert forall|i: int| 0 <= i < n && !in_subtree(actors, root, i) implies after.contains(
            #[trigger] actors[i],
        ) by {
            if i < n - 1 {
                assert(before.contains(actors[i]));
                let k = choose|k: int| 0 <= k < before.len() && before[k] == actors[i];
                assert(after[k] == actors[i]);
            } else {
                assert(after[after.len() - 1] == actors[i]);
            }
        }
        assert forall|k: int| 0 <= k < after.len() implies (#[trigger] after[k]).id != root by {
            let i = choose|i: int|
                0 <= i < n && !in_subtree(actors, root, i) && actors[i] == after[k];
            assert(actors[i].id != root);
        }
    }
}

impl WorldView {
    /// The commands that create an entity carry sound entities whose ids are
    /// those handed out since the commands were last applied, in order.
    pub open spec fn spawns_wf(self) -> bool {
        &&& forall|k: int|
            0 <= k < self.commands.len() ==> (#[trigger] self.commands[k] matches Command::Spawn {
                actor,
            } ==> actor.wf() && self.committed <= actor.id < self.next_id)
        &&& forall|k: int, l: int|
            #![trigger self.commands[k], self.commands[l]]
            0 <= k < l < self.commands.len() ==> (self.commands[k] matches Command::Spawn {
                actor: first,
            } ==> (self.commands[l] matches Command::Spawn { actor: second } ==> first.id
                < second.id))
    }

    /// The invariant of the world.
    pub open spec fn wf(self) -> bool {
        &&& ids_increase(self.actors)
        &&& forall|i: int|
            0 <= i < self.actors.len() ==> (#[trigger] self.actors[i]).wf() && self.actors[i].id
                < self.committed
        &&& self.committed <= self.next_id
        &&& self.spawns_wf()
    }

    /// Whether `count` more entities can be given an id.
    pub open spec fn has_room(self, count: nat) -> bool {
        self.next_id + count <= u64::MAX
    }

    /// The entity `id`, if it exists.
    pub open spec fn get(self, id: u64) -> Option<Actor> {
        lookup(self.actors, id)
    }

    /// The world with one more command.
    pub open spec fn with_command(self, command: Command) -> WorldView {
        WorldView { commands: self.commands.push(command), ..self }
    }

    /// The world with the entity `id`, if it exists, replaced by `actor`.
    pub open spec fn with_actor(self, id: u64, actor: Actor) -> WorldView {
        WorldView { actors: replaced(self.actors, id, actor), ..self }
    }

    /// The world after the request to create `template`, which is given the
    /// next id.
    pub open spec fn with_spawn(self, template: Actor) -> WorldView {
        WorldView {
            commands: self.commands.push(
                Command::Spawn { actor: Actor { id: self.next_id, ..template } },
            ),
            next_id: (self.next_id + 1) as u64,
            ..self
        }
    }
}

impl World {
    /// The invariant of the world, which every function here keeps.
    pub open spec fn wf(&self) -> bool {
        self@.wf()
    }

    /// An empty world.
    pub fn new() -> (world: World)
        ensures
            world.wf(),
            world@.actors.len() == 0,
            world@.commands.len() == 0,
            world@.next_id == 0,
            world@.committed == 0,
            world@.next_state is None,
    {
        World {
            actors: Vec::new(),
            commands: Vec::new(),
            next_id: 0,
            committed: 0,
            next_state: None,
        }
    }

    /// The place of the entity `id` in the table.
    pub fn index_of(&self, id: u64) -> (found: Option<usize>)
        requires
            self.wf(),
        ensures
            match found {
                Some(i) => index_of(self@.actors, id) == Some(i as int) && i < self@.actors.len()
                    && self@.actors[i as int].id == id,
                None => index_of(self@.actors, id) is None,
            },
    {
        find_actor(&self.actors, id)
    }

    /// The entity `id`, if it exists.
    pub fn get(&self, id: u64) -> (actor: Option<Actor>)
        requires
            self.wf(),
        ensures
            actor == self@.get(id),
            actor matches Some(a) ==> a.id == id && a.wf(),
    {
        match self.index_of(id) {
            Some(i) => Some(self.actors[i]),
            None => None,
        }
    }

    /// Whether the entity `id` exists.
    pub fn contains(&self, id: u64) -> (found: bool)
        requires
            self.wf(),
        ensures
            found == (self@.get(id) is Some),
    {
        self.index_of(id).is_some()
    }

    /// Puts `actor` in the place `i` of the table, where the entity with its id
    /// is.
    pub fn put_at(&mut self, i: usize, actor: Actor)
        requires
            old(self).wf(),
            i < old(self)@.actors.len(),
            actor.id == old(self)@.actors[i as int].id,
            actor.wf(),
        ensures
            final(self).wf(),
            final(self)@ == (WorldView {
                actors: old(self)@.actors.update(i as int, actor),
                ..old(self)@
            }),
            final(self)@ == old(self)@.with_actor(actor.id, actor),
    {
        proof {
            lemma_index_of(self@.actors, actor.id);
        }
        self.actors[i] = actor;
        proof {
            let before = old(self)@.actors;
            let after = self@.actors;
            assert(after == before.update(i as int, actor));
            assert forall|k: int, l: int| 0 <= k < l < after.len() implies after[k].id
                < after[l].id by {
                assert(before[k].id < before[l].id);
            }
            assert forall|k: int| 0 <= k < after.len() implies (#[trigger] after[k]).wf()
                && after[k].id < self@.committed by {
                assert(before[k].wf());
            }
        }
    }

    /// Puts `actor` in the place of the entity `id`, which exists.
    pub fn put(&mut self, id: u64, actor: Actor)
        requires
            old(self).wf(),
            old(self)@.get(id) is Some,
            actor.id == id,
            actor.wf(),
        ensures
            final(self).wf(),
            final(self)@ == old(self)@.with_actor(id, actor),
    {
        match self.index_of(id) {
            Some(i) => {
                self.put_at(i, actor);
            },
            None => {},
        }
    }

    /// Records a command.
    pub fn push_command(&mut self, command: Command)
        requires
            old(self).wf(),
            !(command is Spawn),
        ensures
            final(self).wf(),
            final(self)@ == old(self)@.with_command(command),
    {
        self.commands.push(command);
        proof {
            let before = old(self)@.commands;
            let after = self@.commands;
            assert(after == before.push(command));
            assert forall|k: int| 0 <= k < after.len() implies (#[trigger] after[k] matches Command::Spawn {
                actor,
            } ==> actor.wf() && self@.committed <= actor.id < self@.next_id) by {
                if k < before.len() {
                    assert(after[k] == before[k]);
                }
            }
            assert forall|k: int, l: int|
                #![trigger after[k], after[l]]
                0 <= k < l < after.len() implies (after[k] matches Command::Spawn {
                actor: first,
            } ==> (after[l] matches Command::Spawn { actor: second } ==> first.id
                < second.id)) by {
                if l < before.len() {
                    assert(after[k] == before[k]);
                    assert(after[l] == before[l]);
                }
            }
        }
    }

    /// Asks for a new entity with the components of `template` and hands out
    /// its id. The entity exists once the commands are applied.
    pub fn spawn(&mut self, template: Actor) -> (id: u64)
        requires
            old(self).wf(),
            old(self)@.has_room(1),
            template.body_wf(),
            template.parent matches Some(parent) ==> parent < old(self)@.next_id,
        ensures
            final(self).wf(),
            id == old(self)@.next_id,
            final(self)@ == old(self)@.with_spawn(template),
    {
        let id = self.next_id;
        let mut actor = template;
        actor.id = id;
        self.commands.push(Command::Spawn { actor });
        self.next_id = id + 1;
        proof {
            let before = old(self)@.commands;
            let after = self@.commands;
            assert(actor == (Actor { id, ..template }));
            assert(after == before.push(Command::Spawn { actor }));
            assert forall|k: int| 0 <= k < after.len() implies (#[trigger] after[k] matches Command::Spawn {
                actor,
            } ==> actor.wf() && self@.committed <= actor.id < self@.next_id) by {
                if k < before.len() {
                    assert(after[k] == before[k]);
                }
            }
            assert forall|k: int, l: int|
                #![trigger after[k], after[l]]
                0 <= k < l < after.len() implies (after[k] matches Command::Spawn {
                actor: first,
            } ==> (after[l] matches Command::Spawn { actor: second } ==> first.id
                < second.id)) by {
                assert(after[k] == before[k]);
                if l < before.len() {
                    assert(after[l] == before[l]);
                }
            }
        }
        id
    }

    /// Moves the entity `id` to where the engine has it. Says whether the
    /// entity exists and the position is within range; where not, nothing
    /// changes.
    pub fn set_position(&mut self, id: u64, position: Vec3) -> (done: bool)
        requires
            old(self).wf(),
        ensures
            final(self).wf(),
            done == (old(self)@.get(id) is Some && position.in_bounds()),
            done ==> final(self)@ == old(self)@.with_actor(
                id,
                Actor { position, ..old(self)@.get(id).unwrap() },
            ),
            !done ==> final(self)@ == old(self)@,
    {
        if !position.is_in_bounds() {
            return false;
        }
        match self.get(id) {
            Some(actor) => {
                let mut moved = actor;
                moved.position = position;
                self.put(id, moved);
                true
            },
            None => false,
        }
    }

    /// Hands out the state that was asked for, if any, and forgets it.
    pub fn take_next_state(&mut self) -> (next_state: Option<AppState>)
        requires
            old(self).wf(),
        ensures
            final(self).wf(),
            next_state == old(self)@.next_state,
            final(self)@ == (WorldView { next_state: None, ..old(self)@ }),
    {
        let next_state = self.next_state;
        self.next_state = None;
        next_state
    }

    /// Applies the commands of the frame, in order, and hands them to the
    /// caller, who does to the scene what they ask for.
    pub fn apply_commands(&mut self) -> (commands: Vec<Command>)
        requires
            old(self).wf(),
        ensures
            final(self).wf(),
            commands@ == old(self)@.commands,
            final(self)@.actors == applied_all(old(self)@.actors, old(self)@.commands),
            final(self)@.commands.len() == 0,
            final(self)@.next_id == old(self)@.next_id,
            final(self)@.committed == old(self)@.next_id,
            final(self)@.next_state == old(self)@.next_state,
    {
        let mut commands: Vec<Command> = Vec::new();
        std::mem::swap(&mut commands, &mut self.commands);
        let ghost world = old(self)@;
        let mut k: usize = 0;
        assert(world.commands.take(0) =~= Seq::<Command>::empty());
        while k < commands.len()
            invariant
                k <= commands.len(),
                commands@ == world.commands,
                world.spawns_wf(),
                self.commands@.len() == 0,
                self.next_id == world.next_id,
                self.next_state == world.next_state,
                self.actors@ == applied_all(world.actors, world.commands.take(k as int)),
                applying(self.actors@, world.commands, k as int, world.next_id),
            decreases commands.len() - k,
        {
            let command = commands[k];
            apply_command(&mut self.actors, command, Ghost(world.commands), Ghost(k as int), Ghost(world));
            proof {
                let upto = world.commands.take(k as int + 1);
                assert(upto.drop_last() =~= world.commands.take(k as int));
                assert(upto.last() == command);
            }
            k += 1;
        }
        assert(world.commands.take(k as int) =~= world.commands);
        self.committed = self.next_id;
        commands
    }
}

} // verus!

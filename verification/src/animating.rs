//! Named animations, which the engine plays on behalf of the game.
use vstd::prelude::*;
use crate::math::UNIT;
use crate::world::{holds, index_of, lemma_index_of, Actor, Command, World, WorldView};

verus! {

/// Names the child that shows the entity and turns with it.
#[derive(Clone, Copy, Debug, PartialEq, Eq, Structural)]
pub struct ApplyRotationToChild(pub u64);

/// Marks an entity that owns named animation players and clips. The tables of
/// names are the engine's.
#[derive(Clone, Copy, Debug, PartialEq, Eq, Structural)]
pub struct AnimationsOwner;

/// The animation players that the game addresses by name.
#[derive(Clone, Copy, Debug, PartialEq, Eq, Structural)]
pub enum AnimationPlayerName {
    Armature,
    GateOpener,
}

/// The animation clips that the game addresses by name.
#[derive(Clone, Copy, Debug, PartialEq, Eq, Structural)]
pub enum AnimationClipName {
    Death,
    Open,
    Dance,
    Standing,
    Running,
    Jumping,
}

/// How a clip is to be played.
#[derive(Clone, Copy, Debug, PartialEq, Eq, Structural)]
pub enum PlayMode {
    /// Play the clip once; where it is playing already, let it go on.
    Once,
    /// Play the clip once from its start, also where it is playing already.
    Restart,
    /// Play the clip over and over.
    Repeat,
    /// Blend into the clip over a quarter of a second, then play it once.
    Transition,
}

/// A clip to play on a named player of an entity.
#[derive(Clone, Copy, Debug, PartialEq, Eq, Structural)]
pub struct Animation {
    pub player: AnimationPlayerName,
    pub clip: AnimationClipName,
    pub mode: PlayMode,
    /// The speed, in millionths of the clip's own speed.
    pub speed: i64,
    /// Whether it is an error of the level's author that the player or the
    /// clip is missing. What is not required is left out where it is missing.
    pub required: bool,
}

impl AnimationPlayerName {
    /// The name as the scene files have it.
    pub fn name(&self) -> (name: &'static str)
        ensures
            *self == AnimationPlayerName::Armature ==> name@ == "Armature"@,
            *self == AnimationPlayerName::GateOpener ==> name@ == "GateOpener"@,
    {
        match self {
            AnimationPlayerName::Armature => "Armature",
            AnimationPlayerName::GateOpener => "GateOpener",
        }
    }
}

impl AnimationClipName {
    /// The name as the scene files have it.
    pub fn name(&self) -> (name: &'static str)
        ensures
            *self == AnimationClipName::Death ==> name@ == "Death"@,
            *self == AnimationClipName::Open ==> name@ == "Open"@,
            *self == AnimationClipName::Dance ==> name@ == "Dance"@,
            *self == AnimationClipName::Standing ==> name@ == "Standing"@,
            *self == AnimationClipName::Running ==> name@ == "Running"@,
            *self == AnimationClipName::Jumping ==> name@ == "Jumping"@,
    {
        match self {
            AnimationClipName::Death => "Death",
            AnimationClipName::Open => "Open",
            AnimationClipName::Dance => "Dance",
            AnimationClipName::Standing => "Standing",
            AnimationClipName::Running => "Running",
            AnimationClipName::Jumping => "Jumping",
        }
    }
}

impl Animation {
    /// A clip that must exist, played at its own speed.
    pub open spec fn spec_required(
        player: AnimationPlayerName,
        clip: AnimationClipName,
        mode: PlayMode,
    ) -> Animation {
        Animation { player, clip, mode, speed: UNIT, required: true }
    }

    /// A clip that must exist, played at its own speed.
    #[verifier::when_used_as_spec(spec_required)]
    pub fn required(player: AnimationPlayerName, clip: AnimationClipName, mode: PlayMode) -> (animation:
        Animation)
        ensures
            animation == Animation::spec_required(player, clip, mode),
    {
        Animation { player, clip, mode, speed: UNIT, required: true }
    }
}

/// The animation that an entity plays from the moment its player and clip
/// are there.
#[derive(Clone, Copy, Debug, PartialEq, Eq, Structural)]
pub struct InitialAnimation {
    pub player_name: AnimationPlayerName,
    pub clip_name: AnimationClipName,
}

impl InitialAnimation {
    /// The animation of the named clip on the named player.
    pub open spec fn spec_new(
        player_name: AnimationPlayerName,
        clip_name: AnimationClipName,
    ) -> InitialAnimation {
        InitialAnimation { player_name, clip_name }
    }

    /// The animation of the named clip on the named player.
    #[verifier::when_used_as_spec(spec_new)]
    pub fn new(player_name: AnimationPlayerName, clip_name: AnimationClipName) -> (initial:
        InitialAnimation)
        ensures
            initial == InitialAnimation::spec_new(player_name, clip_name),
    {
        Self { player_name, clip_name }
    }

    /// The initial animation as it is played: over and over, at the clip's
    /// own speed, and left out while the player or the clip is missing.
    pub open spec fn animation(self) -> Animation {
        Animation {
            player: self.player_name,
            clip: self.clip_name,
            mode: PlayMode::Repeat,
            speed: UNIT,
            required: false,
        }
    }
}

/// The nearest entity above the place `i` of `actors` that owns animations:
/// the parent, or else the parent's parent, and so on.
pub open spec fn owner_above(actors: Seq<Actor>, i: int) -> Option<u64>
    decreases i,
{
    if 0 <= i < actors.len() {
        match actors[i].parent {
            Some(parent) => match index_of(actors, parent) {
                Some(j) => if 0 <= j < i {
                    if actors[j].animations_owner is Some {
                        Some(parent)
                    } else {
                        owner_above(actors, j)
                    }
                } else {
                    None
                },
                None => None,
            },
            None => None,
        }
    } else {
        None
    }
}

/// The owner of the animation player `entity`: the nearest entity above it
/// that owns animations, if there is one.
pub open spec fn owner_of(world: WorldView, entity: u64) -> Option<u64> {
    match index_of(world.actors, entity) {
        Some(i) => owner_above(world.actors, i),
        None => None,
    }
}

/// Finds the entity that owns the animation player `entity`, so that the
/// player can be entered under its name in the owner's table.
pub fn detect_animation_players(world: &World, entity: u64) -> (owner: Option<u64>)
    requires
        world.wf(),
    ensures
        owner == owner_of(world@, entity),
{
    let mut current = match world.index_of(entity) {
        Some(i) => i,
        None => {
            return None;
        },
    };
    loop
        invariant
            world.wf(),
            current < world@.actors.len(),
            owner_of(world@, entity) == owner_above(world@.actors, current as int),
        decreases current,
    {
        let parent = match world.actors[current].parent {
            Some(parent) => parent,
            None => {
                return None;
            },
        };
        proof {
            lemma_index_of(world@.actors, parent);
            assert(world@.actors[current as int].wf());
        }
        let above = match world.index_of(parent) {
            Some(above) => above,
            None => {
                return None;
            },
        };
        proof {
            // The parent is older than its child, so it stands before it.
            if above >= current {
                if above > current {
                    assert(world@.actors[current as int].id < world@.actors[above as int].id);
                }
            }
        }
        if world.actors[above].animations_owner.is_some() {
            return Some(parent);
        }
        current = above;
    }
}

/// Whether the entity begins its initial animation: it has one, owns
/// animations, and is among those whose player and clip are there.
pub open spec fn begins(actor: Actor, ready: Seq<u64>) -> bool {
    actor.initial_animation is Some && actor.animations_owner is Some && ready.contains(actor.id)
}

/// What the beginning of the initial animations among `actors` asks for,
/// oldest entity first: to play the animation over and over, and to take it
/// off the entity.
pub open spec fn beginnings(actors: Seq<Actor>, ready: Seq<u64>) -> Seq<Command>
    decreases actors.len(),
{
    if actors.len() == 0 {
        Seq::empty()
    } else {
        let last = actors.last();
        beginnings(actors.drop_last(), ready) + (if begins(last, ready) {
            seq![
                Command::PlayAnimation {
                    owner: last.id,
                    animation: last.initial_animation.unwrap().animation(),
                },
                Command::RemoveInitialAnimation { entity: last.id },
            ]
        } else {
            Seq::empty()
        })
    }
}

/// The world after the initial animations of the entities among `ready` have
/// begun.
pub open spec fn after_initial_animations(world: WorldView, ready: Seq<u64>) -> WorldView {
    WorldView { commands: world.commands + beginnings(world.actors, ready), ..world }
}

/// Begins the initial animation of every entity that waits for it and is
/// among `ready`, the entities whose player and clip are there by now.
pub fn set_initial_animation(world: &mut World, ready: &Vec<u64>)
    requires
        old(world).wf(),
    ensures
        final(world).wf(),
        final(world)@ == after_initial_animations(old(world)@, ready@),
{
    let mut i: usize = 0;
    assert(old(world)@.actors.take(0) =~= Seq::<Actor>::empty());
    while i < world.actors.len()
        invariant
            i <= world.actors.len(),
            world.wf(),
            world@.actors == old(world)@.actors,
            world@.commands == old(world)@.commands + beginnings(
                old(world)@.actors.take(i as int),
                ready@,
            ),
            world@.next_id == old(world)@.next_id,
            world@.committed == old(world)@.committed,
            world@.next_state == old(world)@.next_state,
        decreases world.actors.len() - i,
    {
        proof {
            let upto = old(world)@.actors.take(i as int + 1);
            assert(upto.drop_last() =~= old(world)@.actors.take(i as int));
            assert(upto.last() == old(world)@.actors[i as int]);
        }
        let actor = world.actors[i];
        match actor.initial_animation {
            Some(initial) => {
                if actor.animations_owner.is_some() && holds(ready, actor.id) {
                    world.push_command(
                        Command::PlayAnimation {
                            owner: actor.id,
                            animation: Animation {
                                player: initial.player_name,
                                clip: initial.clip_name,
                                mode: PlayMode::Repeat,
                                speed: UNIT,
                                required: false,
                            },
                        },
                    );
                    world.push_command(Command::RemoveInitialAnimation { entity: actor.id });
                }
            },
            None => {},
        }
        i += 1;
    }
    assert(old(world)@.actors.take(i as int) =~= old(world)@.actors);
}

} // verus!

//! Progress through the levels: which are unlocked, which is played, and
//! what completing one changes.
use vstd::prelude::*;
use vstd::string::*;
use crate::menu::FocusLabel;
use crate::world::{Actor, Command, World, WorldView};
use crate::AppState;

verus! {

/// The key under which the furthest completed level is stored.
pub const LEVEL_PKV_KEY: &'static str = "completed_up_to_level";

/// The progress of the player through the levels.
pub struct LevelProgress {
    /// The level that was completed last, for the menu to show.
    pub just_completed: Option<String>,
    /// The level that is played, or is to be loaded.
    pub current_level: Option<String>,
    /// How many levels, from the first of the index on, are unlocked. Zero
    /// until the stored progress was read.
    pub num_levels_available: usize,
}

/// The mathematical content of a [`LevelProgress`].
pub struct LevelProgressView {
    pub just_completed: Option<Seq<char>>,
    pub current_level: Option<Seq<char>>,
    pub num_levels_available: nat,
}

/// The name in an optional string.
pub open spec fn name_of(name: Option<String>) -> Option<Seq<char>> {
    match name {
        Some(name) => Some(name@),
        None => None,
    }
}

impl View for LevelProgress {
    type V = LevelProgressView;

    open spec fn view(&self) -> LevelProgressView {
        LevelProgressView {
            just_completed: name_of(self.just_completed),
            current_level: name_of(self.current_level),
            num_levels_available: self.num_levels_available as nat,
        }
    }
}

impl Default for LevelProgress {
    fn default() -> (progress: Self)
        ensures
            progress@ == (LevelProgressView {
                just_completed: None,
                current_level: None,
                num_levels_available: 0,
            }),
    {
        LevelProgress { just_completed: None, current_level: None, num_levels_available: 0 }
    }
}

/// The names of the levels of an index.
pub open spec fn names(level_index: Seq<String>) -> Seq<Seq<char>> {
    level_index.map_values(|name: String| name@)
}

/// Whether `i` is the first place of `names` that holds `name`.
pub open spec fn is_place_of(names: Seq<Seq<char>>, name: Seq<char>, i: int) -> bool {
    &&& 0 <= i < names.len()
    &&& names[i] == name
    &&& forall|j: int| 0 <= j < i ==> names[j] != name
}

/// The first place of `names` that holds `name`, if there is one.
pub open spec fn place_of(names: Seq<Seq<char>>, name: Seq<char>) -> Option<int> {
    if exists|i: int| is_place_of(names, name, i) {
        Some(choose|i: int| is_place_of(names, name, i))
    } else {
        None
    }
}

/// Finds the first place of the index that holds `name`.
pub fn find_level(level_index: &Vec<String>, name: &String) -> (place: Option<usize>)
    ensures
        match place {
            Some(i) => place_of(names(level_index@), name@) == Some(i as int) && i
                < level_index@.len(),
            None => place_of(names(level_index@), name@) is None,
        },
{
    let ghost all = names(level_index@);
    let mut i: usize = 0;
    while i < level_index.len()
        invariant
            i <= level_index.len(),
            all == names(level_index@),
            forall|j: int| 0 <= j < i ==> all[j] != name@,
        decreases level_index.len() - i,
    {
        assert(all[i as int] == level_index@[i as int]@);
        if level_index[i] == *name {
            proof {
                assert(is_place_of(all, name@, i as int));
                let k = choose|k: int| is_place_of(all, name@, k);
                assert(k == i) by {
                    if k < i {
                        assert(all[k] != name@);
                    } else if k > i {
                        assert(all[i as int] != name@);
                    }
                }
            }
            return Some(i);
        }
        i += 1;
    }
    proof {
        assert forall|k: int| !is_place_of(all, name@, k) by {
            if is_place_of(all, name@, k) {
                assert(all[k] != name@);
            }
        }
    }
    None
}

/// How many levels are unlocked by what is stored: the stored level and the
/// one after it where it is in the index, and the first level alone where
/// nothing is stored or what is stored is not in the index.
pub open spec fn unlocked_by(stored: Option<Seq<char>>, index: Seq<Seq<char>>) -> nat {
    match stored {
        Some(name) => match place_of(index, name) {
            Some(i) => (i + 2) as nat,
            None => 1,
        },
        None => 1,
    }
}

/// The progress once the stored progress was looked at. It is read once:
/// where levels are unlocked already nothing changes. While something is
/// stored and the index is not there yet, the reading is put off.
pub open spec fn read_progress(
    progress: LevelProgressView,
    stored: Option<Seq<char>>,
    index: Option<Seq<Seq<char>>>,
) -> LevelProgressView {
    if 0 < progress.num_levels_available {
        progress
    } else {
        match (stored, index) {
            (Some(_), None) => progress,
            (Some(_), Some(index)) => LevelProgressView {
                num_levels_available: unlocked_by(stored, index),
                ..progress
            },
            (None, _) => LevelProgressView { num_levels_available: 1, ..progress },
        }
    }
}

/// The names of an optional index.
pub open spec fn names_of(level_index: Option<&Vec<String>>) -> Option<Seq<Seq<char>>> {
    match level_index {
        Some(level_index) => Some(names(level_index@)),
        None => None,
    }
}

/// Takes up the progress that was stored: `completed_up_to_level` is the name
/// of the furthest completed level, where one is stored, and `level_index` the
/// index of the levels, once it is loaded.
pub fn read_last_finished_level(
    progress: &mut LevelProgress,
    completed_up_to_level: Option<&String>,
    level_index: Option<&Vec<String>>,
)
    requires
        level_index matches Some(index) ==> index@.len() < usize::MAX,
    ensures
        final(progress)@ == read_progress(
            old(progress)@,
            match completed_up_to_level {
                Some(name) => Some(name@),
                None => None,
            },
            names_of(level_index),
        ),
{
    if 0 < progress.num_levels_available {
        return ;
    }
    match completed_up_to_level {
        Some(completed_up_to_level) => {
            let level_index = match level_index {
                Some(level_index) => level_index,
                None => {
                    return ;
                },
            };
            match find_level(level_index, completed_up_to_level) {
                Some(index) => {
                    progress.num_levels_available = index + 2;
                },
                None => {
                    progress.num_levels_available = 1;
                },
            }
        },
        None => {
            progress.num_levels_available = 1;
        },
    }
}

/// The removals of the entities among `actors` that came with the level,
/// oldest first.
pub open spec fn removals(actors: Seq<Actor>) -> Seq<Command>
    decreases actors.len(),
{
    if actors.len() == 0 {
        Seq::empty()
    } else {
        removals(actors.drop_last()) + (if actors.last().belongs_to_level is Some {
            seq![Command::Despawn { entity: actors.last().id }]
        } else {
            Seq::empty()
        })
    }
}

/// The world after the removal of what came with the level was asked for.
pub open spec fn after_clearing(world: WorldView) -> WorldView {
    WorldView { commands: world.commands + removals(world.actors), ..world }
}

/// Asks for the removal of every entity that came with the level.
pub fn clear_old_entities(world: &mut World)
    requires
        old(world).wf(),
    ensures
        final(world).wf(),
        final(world)@ == after_clearing(old(world)@),
{
    let mut i: usize = 0;
    assert(old(world)@.actors.take(0) =~= Seq::<Actor>::empty());
    while i < world.actors.len()
        invariant
            i <= world.actors.len(),
            world.wf(),
            world@.actors == old(world)@.actors,
            world@.commands == old(world)@.commands + removals(old(world)@.actors.take(i as int)),
            world@.next_id == old(world)@.next_id,
            world@.committed == old(world)@.committed,
            world@.next_state == old(world)@.next_state,
        decreases world.actors.len() - i,
    {
        proof {
            let upto = old(world)@.actors.take(i as int + 1);
            assert(upto.drop_last() =~= old(world)@.actors.take(i as int));
            assert(upto.last() == old(world)@.actors[i as int]);
        }
        let actor = world.actors[i];
        if actor.belongs_to_level.is_some() {
            world.push_command(Command::Despawn { entity: actor.id });
        }
        i += 1;
    }
    assert(old(world)@.actors.take(i as int) =~= old(world)@.actors);
}

/// Names the file of the current level, below the directory of the levels,
/// for the engine to load, and asks for the game state.
pub fn launch_level_loading_command(progress: &LevelProgress, world: &mut World) -> (path: String)
    requires
        old(world).wf(),
        progress@.current_level is Some,
    ensures
        final(world).wf(),
        path@ == "levels/"@ + progress@.current_level.unwrap(),
        final(world)@ == (WorldView { next_state: Some(AppState::Game), ..old(world)@ }),
{
    let path = match &progress.current_level {
        Some(current_level) => String::from_str("levels/").concat(current_level.as_str()),
        None => String::from_str("levels/"),
    };
    world.next_state = Some(AppState::Game);
    path
}

/// What completing a level asks of the application.
pub struct Completion {
    /// The name to store as the furthest completed level, where the level
    /// that was completed is a new furthest one.
    pub store: Option<String>,
    /// The entry of the menu that gets the focus.
    pub focus: FocusLabel,
}

/// How many levels are unlocked once the level `finished` is completed: the
/// level after it too, where it is in the index, and never fewer than before.
pub open spec fn unlocked_after(
    unlocked: nat,
    finished: Seq<char>,
    index: Option<Seq<Seq<char>>>,
) -> nat {
    match index {
        Some(index) => match place_of(index, finished) {
            Some(i) => if unlocked < i + 2 {
                (i + 2) as nat
            } else {
                unlocked
            },
            None => unlocked,
        },
        None => unlocked,
    }
}

/// Takes note that the current level is completed: the level after it is
/// unlocked where it was not, which is then to be stored; the level is
/// remembered as just completed and is no longer the current one; and the
/// level selection is asked for, with the focus on the next level.
pub fn handle_level_completion(
    progress: &mut LevelProgress,
    world: &mut World,
    level_index: Option<&Vec<String>>,
) -> (completion: Completion)
    requires
        old(world).wf(),
        old(progress)@.current_level is Some,
        level_index matches Some(index) ==> index@.len() < usize::MAX,
    ensures
        final(world).wf(),
        final(world)@ == (WorldView {
            next_state: Some(AppState::LevelSelectMenu),
            ..old(world)@
        }),
        final(progress)@ == (LevelProgressView {
            just_completed: old(progress)@.current_level,
            current_level: None,
            num_levels_available: unlocked_after(
                old(progress)@.num_levels_available,
                old(progress)@.current_level.unwrap(),
                names_of(level_index),
            ),
        }),
        final(progress)@.num_levels_available >= old(progress)@.num_levels_available,
        name_of(completion.store) == if final(progress)@.num_levels_available > old(
            progress,
        )@.num_levels_available {
            old(progress)@.current_level
        } else {
            None
        },
        completion.focus == FocusLabel::NextLevel,
{
    let mut current: Option<String> = None;
    std::mem::swap(&mut current, &mut progress.current_level);
    let finished_level_name = match current {
        Some(name) => name,
        None => String::new(),
    };
    let mut store: Option<String> = None;
    match level_index {
        Some(level_index) => {
            match find_level(level_index, &finished_level_name) {
                Some(index_of_finished_level) => {
                    let new_num_levels_available = index_of_finished_level + 2;
                    if progress.num_levels_available < new_num_levels_available {
                        progress.num_levels_available = new_num_levels_available;
                        store = Some(finished_level_name.clone());
                    }
                },
                None => {},
            }
        },
        None => {},
    }
    progress.just_completed = Some(finished_level_name);
    world.next_state = Some(AppState::LevelSelectMenu);
    Completion { store, focus: FocusLabel::NextLevel }
}

/// How many levels are unlocked once the levels `finished` are completed, one
/// after the other.
pub open spec fn unlocked_over(
    unlocked: nat,
    finished: Seq<Seq<char>>,
    index: Option<Seq<Seq<char>>>,
) -> nat
    decreases finished.len(),
{
    if finished.len() == 0 {
        unlocked
    } else {
        unlocked_after(unlocked_over(unlocked, finished.drop_last(), index), finished.last(), index)
    }
}

/// Completing a level of the index unlocks the level after it: as many levels
/// as its place and two more, where fewer were unlocked, and as many as before
/// otherwise.
pub proof fn lemma_completion_unlocks_next(unlocked: nat, index: Seq<Seq<char>>, i: int)
    requires
        is_place_of(index, index[i], i),
    ensures
        unlocked_after(unlocked, index[i], Some(index)) == if unlocked < i + 2 {
            (i + 2) as nat
        } else {
            unlocked
        },
{
    let k = choose|k: int| is_place_of(index, index[i], k);
    assert(k == i) by {
        if k < i {
            assert(index[k] != index[i]);
        } else if i < k {
            assert(index[i] != index[i]);
        }
    }
}

/// The number of unlocked levels never goes down, whatever levels are
/// completed in whatever order.
pub proof fn lemma_unlocking_is_monotonic(
    unlocked: nat,
    finished: Seq<Seq<char>>,
    index: Option<Seq<Seq<char>>>,
)
    ensures
        unlocked_over(unlocked, finished, index) >= unlocked,
    decreases finished.len(),
{
    if finished.len() > 0 {
        lemma_unlocking_is_monotonic(unlocked, finished.drop_last(), index);
    }
}

} // verus!

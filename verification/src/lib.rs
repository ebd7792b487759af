//! Gameplay core of a side-scrolling action-platformer: the state and the
//! event protocols of pickup, carrying, shooting, planting, growth, enemies,
//! gates and level progression, kept apart from the engine that draws and
//! simulates the scene.
//!
//! The entities of the game live in a table, [`world::World`], under ids that
//! the table hands out. A system is a function from the table and the events
//! of a frame to the changed table and the events it raises; what it states
//! of them is proved. Components change at once, while entities come and go
//! through commands that are applied together at the end of the frame and
//! handed to the engine, which shows them. [`schedule::run_frame`] runs the
//! systems in their order.
//!
//! Lengths are whole millionths of a world unit and times whole
//! microseconds ([`math`]), so that the formulas of the game hold exactly.
//! The engine's timer does the counting of cooldowns and timeouts
//! ([`shooting::Countdown`]).
use vstd::prelude::*;
use vstd::string::*;
use crate::level_handling::{LevelProgress, LevelProgressView};
use crate::menu::{has_suffix, strip_suffix};

pub mod ammunition;
pub mod animating;
pub mod arena;
pub mod camera;
pub mod editing_helpers;
pub mod gate;
pub mod goblin;
pub mod killing;
pub mod level_handling;
pub mod math;
pub mod menu;
pub mod planting;
pub mod player;
pub mod player_controls;
pub mod schedule;
pub mod shooting;
pub mod utils;
pub mod world;

verus! {

/// The top-level state of the application.
#[derive(Clone, Copy, Debug, PartialEq, Eq, Hash, Structural)]
pub enum AppState {
    MainMenu,
    PauseMenu,
    LevelSelectMenu,
    LoadLevel,
    Editor,
    Game,
    LevelCompleted,
    GameOver,
}

impl AppState {
    /// Whether the menu frame is laid out in this state.
    pub open spec fn spec_is_menu(&self) -> bool {
        *self is MainMenu || *self is PauseMenu || *self is LevelSelectMenu || *self is GameOver
    }

    /// Whether the menu frame is laid out in this state.
    #[verifier::when_used_as_spec(spec_is_menu)]
    pub fn is_menu(&self) -> (menu: bool)
        ensures
            menu == self.spec_is_menu(),
    {
        match self {
            AppState::MainMenu => true,
            AppState::PauseMenu => true,
            AppState::LevelSelectMenu => true,
            AppState::LoadLevel => false,
            AppState::Editor => false,
            AppState::Game => false,
            AppState::LevelCompleted => false,
            AppState::GameOver => true,
        }
    }
}

impl AppState {
    /// The steps from state to state that the application takes: from the
    /// main menu to the level selection, or straight to a level that was asked
    /// for at the start; from the level selection to a level or back; from the
    /// loading into the game; from the game into the pause, to its loss or to
    /// the completion of the level; from the pause back into the game; from the
    /// pause and the loss to another try, the level selection or the main menu;
    /// from the completion to the level selection; and between the editor and
    /// the game it edits.
    pub open spec fn leads_to(self, next: AppState) -> bool {
        match self {
            AppState::MainMenu => next is LevelSelectMenu || next is LoadLevel,
            AppState::LevelSelectMenu => next is LoadLevel || next is MainMenu,
            AppState::LoadLevel => next is Game,
            AppState::Game => next is PauseMenu || next is GameOver || next is LevelCompleted
                || next is Editor,
            AppState::PauseMenu => next is Game || next is LoadLevel || next is LevelSelectMenu
                || next is MainMenu,
            AppState::GameOver => next is LoadLevel || next is LevelSelectMenu || next is MainMenu,
            AppState::LevelCompleted => next is LevelSelectMenu,
            AppState::Editor => next is Game,
        }
    }

    /// Whether the physics of the scene runs in this state: in the game only.
    pub open spec fn spec_physics_active(&self) -> bool {
        *self is Game
    }

    /// Whether the physics of the scene runs in this state: in the game only.
    #[verifier::when_used_as_spec(spec_physics_active)]
    pub fn physics_active(&self) -> (active: bool)
        ensures
            active == self.spec_physics_active(),
    {
        matches!(self, AppState::Game)
    }
}

impl Default for AppState {
    fn default() -> (state: Self)
        ensures
            state == AppState::MainMenu,
    {
        AppState::MainMenu
    }
}

/// The mark of the key that opens and closes the menu.
#[derive(Clone, Copy, Debug, PartialEq, Eq, Structural)]
pub struct MenuActionForKbgp;

/// How the game is started: for editing or for playing, and with which
/// level, where one is asked for.
pub struct GardeningGunGamePlugin {
    pub is_editor: bool,
    pub start_at_level: Option<String>,
}

/// The file of a level that was asked for by name: the name, with the
/// extension of level files where it lacks it.
pub open spec fn level_file(name: Seq<char>) -> Seq<char> {
    if has_suffix(name, ".yol"@) {
        name
    } else {
        name + ".yol"@
    }
}

/// The file of a level that was asked for by name.
pub fn level_file_name(name: &str) -> (file: String)
    ensures
        file@ == level_file(name@),
{
    match strip_suffix(name, ".yol") {
        Some(_) => String::from_str(name),
        None => String::from_str(name).concat(".yol"),
    }
}

impl GardeningGunGamePlugin {
    /// The state in which the application starts: the editor where it was
    /// started for editing; the loading of the level that was asked for, which
    /// becomes the current level; and the main menu otherwise.
    pub fn start(&self, progress: &mut LevelProgress) -> (state: AppState)
        ensures
            self.is_editor ==> state == AppState::Editor && final(progress)@ == old(progress)@,
            !self.is_editor ==> match self.start_at_level {
                Some(name) => state == AppState::LoadLevel && final(progress)@ == (LevelProgressView {
                    current_level: Some(level_file(name@)),
                    ..old(progress)@
                }),
                None => state == AppState::MainMenu && final(progress)@ == old(progress)@,
            },
    {
        if self.is_editor {
            return AppState::Editor;
        }
        match &self.start_at_level {
            Some(start_at_level) => {
                progress.current_level = Some(level_file_name(start_at_level.as_str()));
                AppState::LoadLevel
            },
            None => AppState::MainMenu,
        }
    }
}

} // verus!

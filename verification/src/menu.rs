//! The menus: what a click or a key does in each of them, and what the level
//! selection shows.
use vstd::prelude::*;
use vstd::string::*;
use crate::level_handling::{name_of, names, LevelProgress, LevelProgressView};
use crate::AppState;

verus! {

/// The entries of the menus that can be given the focus.
#[derive(Clone, Copy, Debug, PartialEq, Eq, Structural)]
pub enum FocusLabel {
    Start,
    Exit,
    NextLevel,
    BackToMainMenu,
    CurrentLevel,
}

/// What a frame of a menu asks for.
#[derive(Clone, Copy, Debug, PartialEq, Eq, Structural)]
pub struct MenuOutcome {
    /// The state to enter next, where the menu is left.
    pub next_state: Option<AppState>,
    /// Whether the input that led here is to be forgotten, so that it does
    /// not act on the next menu too.
    pub clear_input: bool,
    /// The entry that gets the focus, where it moves.
    pub focus: Option<FocusLabel>,
}

/// The buttons of the pause menu and of the game-over menu that were
/// clicked in a frame, and whether the menu key was pressed.
#[derive(Clone, Copy, Debug, PartialEq, Eq, Structural)]
pub struct MenuInput {
    pub user_action: bool,
    pub resume: bool,
    pub retry: bool,
    pub level_select: bool,
    pub main_menu: bool,
}

/// A frame in which nothing is asked for.
pub open spec fn nothing() -> MenuOutcome {
    MenuOutcome { next_state: None, clear_input: false, focus: None }
}

/// What the menu key does outside the menus: it pauses the game.
pub open spec fn paused_by(state: AppState, user_action: bool) -> MenuOutcome {
    if state == AppState::Game && user_action {
        MenuOutcome { next_state: Some(AppState::PauseMenu), clear_input: true, focus: None }
    } else {
        nothing()
    }
}

/// Pauses the game when the menu key is pressed in it.
pub fn pause_unpause_game(state: AppState, user_action: bool) -> (outcome: MenuOutcome)
    ensures
        outcome == paused_by(state, user_action),
        outcome.next_state matches Some(next) ==> state.leads_to(next),
{
    if matches!(state, AppState::Game) && user_action {
        MenuOutcome { next_state: Some(AppState::PauseMenu), clear_input: true, focus: None }
    } else {
        MenuOutcome { next_state: None, clear_input: false, focus: None }
    }
}

/// The main menu: its start button leads to the level selection, with the
/// focus on the next level.
pub fn main_menu(start_clicked: bool) -> (outcome: MenuOutcome)
    ensures
        outcome == if start_clicked {
            MenuOutcome {
                next_state: Some(AppState::LevelSelectMenu),
                clear_input: true,
                focus: Some(FocusLabel::NextLevel),
            }
        } else {
            nothing()
        },
        outcome.next_state matches Some(next) ==> AppState::MainMenu.leads_to(next),
{
    if start_clicked {
        MenuOutcome {
            next_state: Some(AppState::LevelSelectMenu),
            clear_input: true,
            focus: Some(FocusLabel::NextLevel),
        }
    } else {
        MenuOutcome { next_state: None, clear_input: false, focus: None }
    }
}

/// What the buttons that the pause menu and the game-over menu share ask
/// for, after `before`: retry loads the level again, level select leads to
/// the level selection with the focus on the current level, and main menu to
/// the main menu with the focus on its start button. Where several were
/// clicked, the last of them in this order decides.
pub open spec fn leaving(before: MenuOutcome, input: MenuInput) -> MenuOutcome {
    let retried = if input.retry {
        MenuOutcome { next_state: Some(AppState::LoadLevel), ..before }
    } else {
        before
    };
    let selected = if input.level_select {
        MenuOutcome {
            next_state: Some(AppState::LevelSelectMenu),
            clear_input: true,
            focus: Some(FocusLabel::CurrentLevel),
        }
    } else {
        retried
    };
    if input.main_menu {
        MenuOutcome {
            next_state: Some(AppState::MainMenu),
            clear_input: true,
            focus: Some(FocusLabel::Start),
        }
    } else {
        selected
    }
}

fn leave(before: MenuOutcome, input: MenuInput) -> (outcome: MenuOutcome)
    ensures
        outcome == leaving(before, input),
{
    let mut outcome = before;
    if input.retry {
        outcome.next_state = Some(AppState::LoadLevel);
    }
    if input.level_select {
        outcome.next_state = Some(AppState::LevelSelectMenu);
        outcome.clear_input = true;
        outcome.focus = Some(FocusLabel::CurrentLevel);
    }
    if input.main_menu {
        outcome.next_state = Some(AppState::MainMenu);
        outcome.clear_input = true;
        outcome.focus = Some(FocusLabel::Start);
    }
    outcome
}

/// What a frame of the pause menu asks for: the resume button and the menu
/// key lead back to the game, and the other buttons where [`leaving`] says.
pub open spec fn pause_outcome(input: MenuInput) -> MenuOutcome {
    leaving(
        if input.resume || input.user_action {
            MenuOutcome { next_state: Some(AppState::Game), ..nothing() }
        } else {
            nothing()
        },
        input,
    )
}

/// The pause menu.
pub fn pause_menu(input: MenuInput) -> (outcome: MenuOutcome)
    ensures
        outcome == pause_outcome(input),
        outcome.next_state matches Some(next) ==> AppState::PauseMenu.leads_to(next),
{
    let mut outcome = MenuOutcome { next_state: None, clear_input: false, focus: None };
    if input.resume || input.user_action {
        outcome.next_state = Some(AppState::Game);
    }
    leave(outcome, input)
}

/// What a frame of the game-over menu asks for: the menu key moves the focus
/// to the way back to the main menu, and the buttons lead where [`leaving`]
/// says. There is no way back into the game that was lost.
pub open spec fn game_over_outcome(input: MenuInput) -> MenuOutcome {
    leaving(
        if input.user_action {
            MenuOutcome { focus: Some(FocusLabel::BackToMainMenu), ..nothing() }
        } else {
            nothing()
        },
        MenuInput { resume: false, ..input },
    )
}

/// The game-over menu.
pub fn game_over_menu(input: MenuInput) -> (outcome: MenuOutcome)
    ensures
        outcome == game_over_outcome(input),
        outcome.next_state matches Some(next) ==> AppState::GameOver.leads_to(next),
{
    let mut outcome = MenuOutcome { next_state: None, clear_input: false, focus: None };
    if input.user_action {
        outcome.focus = Some(FocusLabel::BackToMainMenu);
    }
    leave(outcome, MenuInput { resume: false, ..input })
}

/// Whether `name` ends with `suffix`.
pub open spec fn has_suffix(name: Seq<char>, suffix: Seq<char>) -> bool {
    suffix.len() <= name.len() && name.subrange(name.len() - suffix.len(), name.len() as int)
        == suffix
}

/// `name` without `suffix` at its end, and `name` as it is where it does not
/// end with it.
pub open spec fn without_suffix(name: Seq<char>, suffix: Seq<char>) -> Seq<char> {
    if has_suffix(name, suffix) {
        name.subrange(0, name.len() - suffix.len())
    } else {
        name
    }
}

/// `text` with `to` in the place of every `from`.
pub open spec fn with_replaced(text: Seq<char>, from: char, to: Seq<char>) -> Seq<char>
    decreases text.len(),
{
    if text.len() == 0 {
        Seq::empty()
    } else {
        with_replaced(text.drop_last(), from, to) + (if text.last() == from {
            to
        } else {
            seq![text.last()]
        })
    }
}

/// Removes a suffix with `str::strip_suffix`, which hands out what stands
/// before the suffix where the text ends with it, and nothing where it does
/// not.
#[verifier::external_body]
pub(crate) fn strip_suffix<'a>(name: &'a str, suffix: &str) -> (stripped: Option<&'a str>)
    ensures
        stripped is Some <==> has_suffix(name@, suffix@),
        stripped matches Some(rest) ==> rest@ == without_suffix(name@, suffix@),
{
    name.strip_suffix(suffix)
}

/// Replaces a character with `str::replace`, which copies the text and puts
/// the replacement in the place of every occurrence of the character.
#[verifier::external_body]
fn replace_char(text: &str, from: char, to: &str) -> (replaced: String)
    ensures
        replaced@ == with_replaced(text@, from, to@),
{
    text.replace(from, to)
}

/// The name of a level as the menu shows it: the file's name without its
/// extension, with spaces for underscores.
pub open spec fn level_title(filename: Seq<char>) -> Seq<char> {
    with_replaced(without_suffix(filename, ".yol"@), '_', " "@)
}

/// The name of a level as the menu shows it.
pub fn format_level_name(filename: &str) -> (title: String)
    ensures
        title@ == level_title(filename@),
{
    let stem = match strip_suffix(filename, ".yol") {
        Some(stem) => stem,
        None => filename,
    };
    replace_char(stem, '_', " ")
}

/// The title has no underscore left.
pub proof fn lemma_title_has_no_underscore(filename: Seq<char>)
    ensures
        !level_title(filename).contains('_'),
{
    reveal_strlit(" ");
    lemma_replaced_all(without_suffix(filename, ".yol"@), '_', " "@);
}

/// Once `from` is replaced by a text that does not hold it, it is gone.
pub proof fn lemma_replaced_all(text: Seq<char>, from: char, to: Seq<char>)
    requires
        !to.contains(from),
    ensures
        !with_replaced(text, from, to).contains(from),
    decreases text.len(),
{
    let all = with_replaced(text, from, to);
    if text.len() > 0 {
        let head = with_replaced(text.drop_last(), from, to);
        lemma_replaced_all(text.drop_last(), from, to);
        let tail = if text.last() == from {
            to
        } else {
            seq![text.last()]
        };
        assert(all == head + tail);
        if all.contains(from) {
            let i = choose|i: int| 0 <= i < all.len() && all[i] == from;
            if i < head.len() {
                assert(head[i] == from);
            } else {
                assert(tail[i - head.len()] == from);
            }
        }
    }
}

/// A level in the list of the level selection.
pub struct LevelEntry {
    /// The name shown.
    pub title: String,
    /// Whether the level was completed.
    pub complete: bool,
    /// The entry that stands for this level where the focus is asked to go to
    /// the next level or to the current one. Where both hold, the current
    /// level wins.
    pub focus: Option<FocusLabel>,
}

/// The mathematical content of a [`LevelEntry`].
pub struct LevelEntryView {
    pub title: Seq<char>,
    pub complete: bool,
    pub focus: Option<FocusLabel>,
}

impl View for LevelEntry {
    type V = LevelEntryView;

    open spec fn view(&self) -> LevelEntryView {
        LevelEntryView { title: self.title@, complete: self.complete, focus: self.focus }
    }
}

/// How many levels the selection lists: those that are unlocked, as far as
/// the index goes.
pub open spec fn listed(index: Seq<Seq<char>>, progress: LevelProgressView) -> nat {
    if index.len() < progress.num_levels_available {
        index.len()
    } else {
        progress.num_levels_available
    }
}

/// The entry of the level at the place `i` of the index: complete where a
/// later level is unlocked, the next level where it is the last unlocked one,
/// and the current level where it is the one being played.
pub open spec fn entry_of(index: Seq<Seq<char>>, progress: LevelProgressView, i: int) -> LevelEntryView {
    LevelEntryView {
        title: level_title(index[i]),
        complete: i + 1 < progress.num_levels_available,
        focus: if progress.current_level == Some(index[i]) {
            Some(FocusLabel::CurrentLevel)
        } else if i + 1 == progress.num_levels_available {
            Some(FocusLabel::NextLevel)
        } else {
            None
        },
    }
}

/// Lists the levels that can be chosen, in the order of the index.
pub fn level_entries(level_index: &Vec<String>, progress: &LevelProgress) -> (entries: Vec<LevelEntry>)
    ensures
        entries@.len() == listed(names(level_index@), progress@),
        forall|i: int|
            0 <= i < entries@.len() ==> (#[trigger] entries@[i])@ == entry_of(
                names(level_index@),
                progress@,
                i,
            ),
{
    let mut entries: Vec<LevelEntry> = Vec::new();
    let ghost all = names(level_index@);
    let mut index: usize = 0;
    while index < level_index.len() && index < progress.num_levels_available
        invariant
            index <= level_index.len(),
            index <= progress.num_levels_available,
            all == names(level_index@),
            entries@.len() == index,
            forall|i: int| 0 <= i < entries@.len() ==> (#[trigger] entries@[i])@ == entry_of(all, progress@, i),
        decreases level_index.len() - index,
    {
        let filename = &level_index[index];
        assert(all[index as int] == filename@);
        let is_current = match &progress.current_level {
            Some(current) => *current == *filename,
            None => false,
        };
        let focus = if is_current {
            Some(FocusLabel::CurrentLevel)
        } else if index + 1 == progress.num_levels_available {
            Some(FocusLabel::NextLevel)
        } else {
            None
        };
        entries.push(
            LevelEntry {
                title: format_level_name(filename.as_str()),
                complete: index + 1 < progress.num_levels_available,
                focus,
            },
        );
        index += 1;
    }
    entries
}

/// Whether the way back to the main menu stands for the next level too:
/// where the index is not there, or every level of it is unlocked and
/// completed.
pub fn back_button_is_next_level(level_index: Option<&Vec<String>>, progress: &LevelProgress) -> (yes:
    bool)
    ensures
        yes == match level_index {
            Some(index) => index@.len() < progress@.num_levels_available,
            None => true,
        },
{
    match level_index {
        Some(index) => index.len() < progress.num_levels_available,
        None => true,
    }
}

/// What the level selection shows above the list: the level that was just
/// completed, where there is one.
pub fn finished_label(progress: &LevelProgress) -> (label: Option<String>)
    ensures
        name_of(label) == match progress@.just_completed {
            Some(name) => Some("Finished "@ + level_title(name)),
            None => None,
        },
{
    match &progress.just_completed {
        Some(just_completed) => {
            let title = format_level_name(just_completed.as_str());
            Some(String::from_str("Finished ").concat(title.as_str()))
        },
        None => None,
    }
}

/// What the level selection asks for apart from the choice of a level: the
/// menu key moves the focus to the way back, and the way back leads to the
/// main menu.
pub fn level_select_menu(user_action: bool, back_clicked: bool) -> (outcome: MenuOutcome)
    ensures
        outcome == (MenuOutcome {
            next_state: if back_clicked {
                Some(AppState::MainMenu)
            } else {
                None
            },
            clear_input: false,
            focus: if user_action {
                Some(FocusLabel::BackToMainMenu)
            } else {
                None
            },
        }),
        outcome.next_state matches Some(next) ==> AppState::LevelSelectMenu.leads_to(next),
{
    MenuOutcome {
        next_state: if back_clicked {
            Some(AppState::MainMenu)
        } else {
            None
        },
        clear_input: false,
        focus: if user_action {
            Some(FocusLabel::BackToMainMenu)
        } else {
            None
        },
    }
}

/// Chooses the level at the place `chosen` of the index. A level that is
/// listed becomes the current level, and its loading is asked for; a level
/// that is locked, or not in the index, cannot be chosen, and nothing
/// changes.
pub fn choose_level(progress: &mut LevelProgress, level_index: &Vec<String>, chosen: usize) -> (next:
    Option<AppState>)
    ensures
        chosen < listed(names(level_index@), old(progress)@) ==> next == Some(AppState::LoadLevel)
            && final(progress)@ == (LevelProgressView {
            current_level: Some(names(level_index@)[chosen as int]),
            ..old(progress)@
        }),
        chosen >= listed(names(level_index@), old(progress)@) ==> next is None && final(progress)@
            == old(progress)@,
        next matches Some(state) ==> AppState::LevelSelectMenu.leads_to(state),
{
    if chosen < level_index.len() && chosen < progress.num_levels_available {
        assert(names(level_index@)[chosen as int] == level_index@[chosen as int]@);
        progress.current_level = Some(level_index[chosen].clone());
        Some(AppState::LoadLevel)
    } else {
        None
    }
}

} // verus!

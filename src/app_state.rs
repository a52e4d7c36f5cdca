//! The game's screens and the decisions that move between them. The host
//! loop reads input and applies what these functions decide.

use vstd::prelude::*;
use crate::lifecycle::{LevelHandle, LevelState};

verus! {

#[derive(Clone, Copy, Debug, PartialEq, Eq, Structural, Hash)]
pub enum AppState {
    MainMenu,
    Loading,
    PauseMenu,
    InGame,
}

/// What to do with a menu's widgets.
#[derive(Clone, Copy, Debug, PartialEq, Eq, Structural)]
pub enum MenuAction {
    Show,
    Hide,
    Keep,
}

/// Window and physics settings that follow the screen.
#[derive(Clone, Copy, Debug, PartialEq, Eq, Structural)]
pub struct ScreenMode {
    pub cursor_visible: bool,
    pub cursor_locked: bool,
    pub physics_active: bool,
}

/// Escape pauses a running game and resumes a paused one.
pub fn pause_game(current: AppState, escape_pressed: bool) -> (r: Option<AppState>)
    ensures
        r == if escape_pressed && current == AppState::InGame {
            Some(AppState::PauseMenu)
        } else if escape_pressed && current == AppState::PauseMenu {
            Some(AppState::InGame)
        } else {
            None
        },
{
    if !escape_pressed {
        return None;
    }
    match current {
        AppState::InGame => Some(AppState::PauseMenu),
        AppState::PauseMenu => Some(AppState::InGame),
        _ => None,
    }
}

/// The game starts once the level it is loading has been built.
pub fn set_in_game(current: AppState, level_loaded: bool) -> (r: Option<AppState>)
    ensures
        r == if current == AppState::Loading && level_loaded {
            Some(AppState::InGame)
        } else {
            None
        },
{
    if current == AppState::Loading && level_loaded {
        Some(AppState::InGame)
    } else {
        None
    }
}

/// In game the cursor is hidden and locked and physics runs; elsewhere the
/// cursor is free and physics is paused.
pub fn state_respond(current: AppState) -> (r: ScreenMode)
    ensures
        r.cursor_visible == (current != AppState::InGame),
        r.cursor_locked == (current == AppState::InGame),
        r.physics_active == (current == AppState::InGame),
{
    let in_game = current == AppState::InGame;
    ScreenMode { cursor_visible: !in_game, cursor_locked: in_game, physics_active: in_game }
}

/// A menu that belongs to screen `shown_in` is shown when that screen is
/// entered and no copy of it exists, and hidden when another screen is entered
/// and it exists.
pub fn manage_menu(
    current: AppState,
    shown_in: AppState,
    state_changed: bool,
    menu_exists: bool,
) -> (r: MenuAction)
    ensures
        r == if !state_changed {
            MenuAction::Keep
        } else if current == shown_in {
            if menu_exists {
                MenuAction::Keep
            } else {
                MenuAction::Show
            }
        } else if menu_exists {
            MenuAction::Hide
        } else {
            MenuAction::Keep
        },
{
    if !state_changed {
        MenuAction::Keep
    } else if current == shown_in {
        if menu_exists {
            MenuAction::Keep
        } else {
            MenuAction::Show
        }
    } else if menu_exists {
        MenuAction::Hide
    } else {
        MenuAction::Keep
    }
}

/// Starting a level: the level is wanted and the game waits for it to load.
pub fn start_game(level_state: &mut LevelState, handle: LevelHandle) -> (r: AppState)
    ensures
        final(level_state).handle == Some(handle),
        r == AppState::Loading,
{
    level_state.handle = Some(handle);
    AppState::Loading
}

/// Back to the main menu: no level is wanted any more.
pub fn return_to_menu(level_state: &mut LevelState) -> (r: AppState)
    ensures
        final(level_state).handle is None,
        r == AppState::MainMenu,
{
    level_state.handle = None;
    AppState::MainMenu
}

} // verus!

use platformer_levels::app_state::{
    manage_menu, pause_game, return_to_menu, set_in_game, start_game, state_respond, AppState, MenuAction,
};
use platformer_levels::lifecycle::{LevelHandle, LevelState};

#[test]
fn escape_toggles_pause() {
    assert_eq!(pause_game(AppState::InGame, true), Some(AppState::PauseMenu));
    assert_eq!(pause_game(AppState::PauseMenu, true), Some(AppState::InGame));
    assert_eq!(pause_game(AppState::MainMenu, true), None);
    assert_eq!(pause_game(AppState::Loading, true), None);
    assert_eq!(pause_game(AppState::InGame, false), None);
}

#[test]
fn loading_ends_when_level_is_built() {
    assert_eq!(set_in_game(AppState::Loading, true), Some(AppState::InGame));
    assert_eq!(set_in_game(AppState::Loading, false), None);
    assert_eq!(set_in_game(AppState::MainMenu, true), None);
}

#[test]
fn cursor_and_physics_follow_screen() {
    let game = state_respond(AppState::InGame);
    assert!(!game.cursor_visible && game.cursor_locked && game.physics_active);
    let menu = state_respond(AppState::PauseMenu);
    assert!(menu.cursor_visible && !menu.cursor_locked && !menu.physics_active);
}

#[test]
fn menus_show_and_hide_with_their_screen() {
    assert_eq!(manage_menu(AppState::MainMenu, AppState::MainMenu, true, false), MenuAction::Show);
    assert_eq!(manage_menu(AppState::MainMenu, AppState::MainMenu, true, true), MenuAction::Keep);
    assert_eq!(manage_menu(AppState::InGame, AppState::MainMenu, true, true), MenuAction::Hide);
    assert_eq!(manage_menu(AppState::InGame, AppState::PauseMenu, false, false), MenuAction::Keep);
    assert_eq!(manage_menu(AppState::InGame, AppState::PauseMenu, true, false), MenuAction::Keep);
}

#[test]
fn start_and_return_set_wanted_level() {
    let mut state = LevelState::new();
    assert_eq!(start_game(&mut state, LevelHandle { id: 9 }), AppState::Loading);
    assert_eq!(state.handle, Some(LevelHandle { id: 9 }));
    assert_eq!(return_to_menu(&mut state), AppState::MainMenu);
    assert_eq!(state.handle, None);
}

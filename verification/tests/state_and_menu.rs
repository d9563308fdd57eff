use kinetic_game::camera::look_enabled;
use kinetic_game::menu::{
    button_response, hide_menu, menu_buttons, show_menu, toggle_state, ButtonInteraction,
    MenuAction, Tint,
};
use kinetic_game::state::{AppState, PlayerState};

#[test]
fn app_state_starts_in_game() {
    assert_eq!(AppState::default(), AppState::InGame);
    assert_eq!(PlayerState::default(), PlayerState::Playing);
}

#[test]
fn toggled_switches_between_game_and_menu() {
    assert_eq!(AppState::InGame.toggled(), AppState::Menu);
    assert_eq!(AppState::Menu.toggled(), AppState::InGame);
    assert_eq!(AppState::Menu.toggled().toggled(), AppState::Menu);
}

#[test]
fn menu_key_toggles_only_when_pressed() {
    assert_eq!(toggle_state(true, AppState::InGame), Some(AppState::Menu));
    assert_eq!(toggle_state(true, AppState::Menu), Some(AppState::InGame));
    assert_eq!(toggle_state(false, AppState::InGame), None);
    assert_eq!(toggle_state(false, AppState::Menu), None);
}

#[test]
fn menu_key_twice_returns() {
    let once = toggle_state(true, AppState::InGame).unwrap();
    assert_eq!(toggle_state(true, once), Some(AppState::InGame));
}

#[test]
fn showing_menu_frees_cursor() {
    let v = show_menu();
    assert!(v.panel_visible);
    assert!(v.cursor_visible);
    assert!(!v.cursor_locked);
}

#[test]
fn hiding_menu_locks_cursor() {
    let v = hide_menu();
    assert!(!v.panel_visible);
    assert!(!v.cursor_visible);
    assert!(v.cursor_locked);
    let s = show_menu();
    assert_ne!(s.panel_visible, v.panel_visible);
    assert_ne!(s.cursor_locked, v.cursor_locked);
}

#[test]
fn menu_has_quit_then_respawn() {
    assert_eq!(menu_buttons(), vec![MenuAction::Quit, MenuAction::Respawn]);
}

#[test]
fn pressing_quit_exits() {
    let r = button_response(ButtonInteraction::Pressed, MenuAction::Quit);
    assert_eq!(r.tint, Tint::Darker(30));
    assert!(r.exit);
    assert!(!r.reset_player);
    assert_eq!(r.next_state, None);
}

#[test]
fn pressing_resume_returns_to_game() {
    let r = button_response(ButtonInteraction::Pressed, MenuAction::Resume);
    assert_eq!(r.tint, Tint::Darker(30));
    assert!(!r.exit);
    assert!(!r.reset_player);
    assert_eq!(r.next_state, Some(AppState::InGame));
}

#[test]
fn pressing_respawn_resets_and_returns() {
    let r = button_response(ButtonInteraction::Pressed, MenuAction::Respawn);
    assert_eq!(r.tint, Tint::Darker(30));
    assert!(!r.exit);
    assert!(r.reset_player);
    assert_eq!(r.next_state, Some(AppState::InGame));
}

#[test]
fn hovering_only_lightens() {
    for action in [MenuAction::Quit, MenuAction::Resume, MenuAction::Respawn] {
        let r = button_response(ButtonInteraction::Hovered, action);
        assert_eq!(r.tint, Tint::Lighter(20));
        assert!(!r.exit);
        assert!(!r.reset_player);
        assert_eq!(r.next_state, None);
    }
}

#[test]
fn idle_only_darkens() {
    for action in [MenuAction::Quit, MenuAction::Resume, MenuAction::Respawn] {
        let r = button_response(ButtonInteraction::Idle, action);
        assert_eq!(r.tint, Tint::Darker(20));
        assert!(!r.exit);
        assert!(!r.reset_player);
        assert_eq!(r.next_state, None);
    }
}

#[test]
fn look_disabled_in_menu() {
    assert!(look_enabled(PlayerState::Playing));
    assert!(!look_enabled(PlayerState::InMenu));
}

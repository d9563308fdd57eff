//! The pause menu: the menu key, what entering and leaving the menu shows,
//! and what the menu's buttons do.

use crate::state::AppState;
use vstd::prelude::*;

verus! {

/// What a menu button does when it is pressed.
#[derive(Clone, Copy, Debug, PartialEq, Eq, Structural)]
pub enum MenuAction {
    /// Leave the application.
    Quit,
    /// Go back to the game.
    Resume,
    /// Put the player back at the spawn point, at rest, and go back to the game.
    Respawn,
}

/// The pointer's relation to a button this frame.
#[derive(Clone, Copy, Debug, PartialEq, Eq, Structural)]
pub enum ButtonInteraction {
    Pressed,
    Hovered,
    Idle,
}

/// A change of a button's background colour, by a percentage.
#[derive(Clone, Copy, Debug, PartialEq, Eq, Structural)]
pub enum Tint {
    Darker(u8),
    Lighter(u8),
}

/// Everything that a button's interaction asks of the engine.
#[derive(Clone, Copy, Debug, PartialEq, Eq, Structural)]
pub struct ButtonResponse {
    /// How the button's colour changes.
    pub tint: Tint,
    /// Whether the application is to exit.
    pub exit: bool,
    /// Whether the player is to be moved to the spawn point and stopped.
    pub reset_player: bool,
    /// The state to switch to, if any.
    pub next_state: Option<AppState>,
}

/// How the menu panel and the mouse cursor are shown.
#[derive(Clone, Copy, Debug, PartialEq, Eq, Structural)]
pub struct MenuView {
    pub panel_visible: bool,
    pub cursor_visible: bool,
    /// Whether the cursor is locked to the window.
    pub cursor_locked: bool,
}

/// The state that the menu key asks for: none where the key was not just
/// pressed, else the other state.
pub open spec fn spec_toggle_state(menu_key_just_pressed: bool, current: AppState) -> Option<AppState> {
    if menu_key_just_pressed {
        Some(current.spec_toggled())
    } else {
        None
    }
}

/// The state to switch to for this frame's menu key.
pub fn toggle_state(menu_key_just_pressed: bool, current: AppState) -> (next: Option<AppState>)
    ensures
        next == spec_toggle_state(menu_key_just_pressed, current),
{
    if menu_key_just_pressed {
        Some(current.toggled())
    } else {
        None
    }
}

/// How the panel and the cursor look inside the menu (`in_menu`) and out of
/// it: inside, both are shown and the cursor is free; outside, both are
/// hidden and the cursor is locked to the window.
pub open spec fn menu_view_of(in_menu: bool) -> MenuView {
    MenuView { panel_visible: in_menu, cursor_visible: in_menu, cursor_locked: !in_menu }
}

/// On entering the menu: the panel and the cursor are shown, the cursor free.
pub fn show_menu() -> (v: MenuView)
    ensures
        v == menu_view_of(true),
{
    MenuView { panel_visible: true, cursor_visible: true, cursor_locked: false }
}

/// On leaving the menu: the panel and the cursor are hidden, the cursor locked.
pub fn hide_menu() -> (v: MenuView)
    ensures
        v == menu_view_of(false),
{
    MenuView { panel_visible: false, cursor_visible: false, cursor_locked: true }
}

/// The menu's buttons, top to bottom.
pub fn menu_buttons() -> (buttons: Vec<MenuAction>)
    ensures
        buttons@ == seq![MenuAction::Quit, MenuAction::Respawn],
{
    vec![MenuAction::Quit, MenuAction::Respawn]
}

/// What a button's interaction does. A press darkens the button by 30% and
/// performs its action; a hover lightens it by 20%; otherwise it darkens by
/// 20%.
pub open spec fn spec_button_response(interaction: ButtonInteraction, action: MenuAction) -> ButtonResponse {
    match interaction {
        ButtonInteraction::Pressed => ButtonResponse {
            tint: Tint::Darker(30),
            exit: action == MenuAction::Quit,
            reset_player: action == MenuAction::Respawn,
            next_state: if action == MenuAction::Quit { None } else { Some(AppState::InGame) },
        },
        ButtonInteraction::Hovered => ButtonResponse {
            tint: Tint::Lighter(20),
            exit: false,
            reset_player: false,
            next_state: None,
        },
        ButtonInteraction::Idle => ButtonResponse {
            tint: Tint::Darker(20),
            exit: false,
            reset_player: false,
            next_state: None,
        },
    }
}

/// What the engine is to do for a button's interaction this frame.
pub fn button_response(interaction: ButtonInteraction, action: MenuAction) -> (r: ButtonResponse)
    ensures
        r == spec_button_response(interaction, action),
{
    match interaction {
        ButtonInteraction::Pressed => match action {
            MenuAction::Quit => ButtonResponse {
                tint: Tint::Darker(30),
                exit: true,
                reset_player: false,
                next_state: None,
            },
            MenuAction::Resume => ButtonResponse {
                tint: Tint::Darker(30),
                exit: false,
                reset_player: false,
                next_state: Some(AppState::InGame),
            },
            MenuAction::Respawn => ButtonResponse {
                tint: Tint::Darker(30),
                exit: false,
                reset_player: true,
                next_state: Some(AppState::InGame),
            },
        },
        ButtonInteraction::Hovered => ButtonResponse {
            tint: Tint::Lighter(20),
            exit: false,
            reset_player: false,
            next_state: None,
        },
        ButtonInteraction::Idle => ButtonResponse {
            tint: Tint::Darker(20),
            exit: false,
            reset_player: false,
            next_state: None,
        },
    }
}

/// Showing and hiding the menu are opposite in every respect.
pub proof fn lemma_show_hide_opposite()
    ensures
        menu_view_of(true).panel_visible != menu_view_of(false).panel_visible,
        menu_view_of(true).cursor_visible != menu_view_of(false).cursor_visible,
        menu_view_of(true).cursor_locked != menu_view_of(false).cursor_locked,
{
}

/// Only a press acts: hovering or leaving a button changes its colour and
/// nothing else; every pressed button other than Quit returns to the game,
/// and only Quit exits.
pub proof fn lemma_only_presses_act(interaction: ButtonInteraction, action: MenuAction)
    ensures
        interaction != ButtonInteraction::Pressed ==> {
            let r = spec_button_response(interaction, action);
            !r.exit && !r.reset_player && r.next_state is None
        },
        interaction == ButtonInteraction::Pressed ==> {
            let r = spec_button_response(interaction, action);
            &&& r.exit <==> action == MenuAction::Quit
            &&& action != MenuAction::Quit ==> r.next_state == Some(AppState::InGame)
        },
{
}

/// Pressing the menu key twice from any state gives back that state, and
/// without a press the state is left alone.
pub proof fn lemma_menu_key_twice(s: AppState)
    ensures
        spec_toggle_state(true, s) matches Some(t) && spec_toggle_state(true, t) == Some(s),
        spec_toggle_state(false, s) is None,
{
}

/// Each interaction shades the button its own way: a press darkens it by
/// 30%, a hover lightens it by 20%, and otherwise it darkens by 20%; only a
/// pressed Respawn puts the player back at the spawn point.
pub proof fn lemma_tint_and_reset(interaction: ButtonInteraction, action: MenuAction)
    ensures
        spec_button_response(interaction, action).tint == (match interaction {
            ButtonInteraction::Pressed => Tint::Darker(30),
            ButtonInteraction::Hovered => Tint::Lighter(20),
            ButtonInteraction::Idle => Tint::Darker(20),
        }),
        spec_button_response(interaction, action).reset_player
            <==> (interaction == ButtonInteraction::Pressed && action == MenuAction::Respawn),
        spec_button_response(interaction, action).next_state is Some ==> spec_button_response(interaction, action).next_state == Some(AppState::InGame),
{
}

/// Inside the menu the panel and the cursor are shown and the cursor is free;
/// in play both are hidden and the cursor is locked.
pub proof fn lemma_menu_view_in_and_out()
    ensures
        menu_view_of(true).panel_visible && menu_view_of(true).cursor_visible && !menu_view_of(true).cursor_locked,
        !menu_view_of(false).panel_visible && !menu_view_of(false).cursor_visible && menu_view_of(false).cursor_locked,
{
}

} // verus!

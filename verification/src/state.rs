//! The two state machines of the game: the application state (playing or in
//! the pause menu) and the player's own state.

use vstd::prelude::*;

verus! {

/// Whether the game is being played or the pause menu is open.
#[derive(Clone, Copy, Debug, PartialEq, Eq, Structural)]
pub enum AppState {
    InGame,
    Menu,
}

impl AppState {
    /// The state that the menu key switches to from `self`.
    pub open spec fn spec_toggled(self) -> AppState {
        match self {
            AppState::InGame => AppState::Menu,
            AppState::Menu => AppState::InGame,
        }
    }

    /// The state that the menu key switches to: the menu from the game, the
    /// game from the menu.
    pub fn toggled(self) -> (next: AppState)
        ensures
            next == self.spec_toggled(),
    {
        match self {
            AppState::InGame => AppState::Menu,
            AppState::Menu => AppState::InGame,
        }
    }
}

impl Default for AppState {
    /// The game starts in play.
    fn default() -> (s: AppState)
        ensures
            s == AppState::InGame,
    {
        AppState::InGame
    }
}

/// What the player is doing: playing, or looking at a menu.
#[derive(Clone, Copy, Debug, PartialEq, Eq, Structural)]
pub enum PlayerState {
    Playing,
    InMenu,
}

impl Default for PlayerState {
    /// A new player is playing.
    fn default() -> (s: PlayerState)
        ensures
            s == PlayerState::Playing,
    {
        PlayerState::Playing
    }
}

/// Toggling twice gives back the state one started from, and a toggle always
/// leaves the state it started from.
pub proof fn lemma_toggle_involution(s: AppState)
    ensures
        s.spec_toggled().spec_toggled() == s,
        s.spec_toggled() != s,
{
}

} // verus!

//! Mouse look.

use crate::state::PlayerState;
use vstd::prelude::*;

verus! {

/// Whether mouse motion turns the player and tilts the camera: not while the
/// player is in a menu.
pub fn look_enabled(state: PlayerState) -> (r: bool)
    ensures
        r == (state != PlayerState::InMenu),
{
    match state {
        PlayerState::Playing => true,
        PlayerState::InMenu => false,
    }
}

} // verus!

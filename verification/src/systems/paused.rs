//! The paused state.

use super::common::change_system_if_inputs_pressed;
use crate::input::KeyboardInput;
use crate::resources::game_state::GameState;
use crate::session::GameSession;
use vstd::prelude::*;

verus! {

/// Resume the game when the game is paused.
pub fn resume_game(session: &mut GameSession, keyboard_input: &mut KeyboardInput)
    ensures
        final(session)@ == old(session)@.switched(
            GameState::Paused,
            GameState::Running,
            old(keyboard_input).pause,
        ),
        *final(keyboard_input) == old(keyboard_input).pause_used(
            old(session)@.game_state == GameState::Paused,
        ),
        old(session)@.wf() ==> final(session)@.wf(),
{
    if session.game_state == GameState::Paused {
        change_system_if_inputs_pressed(GameState::Running, &mut keyboard_input.pause, session);
    }
}

} // verus!

//! The over state: the playthrough has ended.

use super::initialized::{enter_ready, spawn_border_set_buttons};
use crate::geometry::Position;
use crate::input::KeyboardInput;
use crate::resources::game_state::GameState;
use crate::resources::score::Score;
use crate::session::{fresh_buttons, GameSession, SessionView};
use vstd::prelude::*;

verus! {

impl SessionView {
    /// The session once the player, in the over state, has asked to restart,
    /// to go back to the choice of a border set, or for nothing. A restart
    /// keeps the border set and puts the first bonus at `bonus_position`.
    pub open spec fn restarted(
        self,
        restart: bool,
        cancel: bool,
        bonus_position: Position,
    ) -> SessionView {
        if self.game_state != GameState::Over {
            self
        } else if restart {
            match self.border_set {
                Some(set) => (SessionView { score: 0, ..self }).made_ready(set, bonus_position),
                None => self,
            }
        } else if cancel {
            (SessionView {
                score: 0,
                border_set: None,
                buttons: self.buttons + fresh_buttons(),
                ..self
            }).entered(GameState::Initialized)
        } else {
            self
        }
    }
}

/// Restarts the game when it is over.
pub fn restart_game(session: &mut GameSession, keyboard_input: &KeyboardInput)
    requires
        old(session)@.wf(),
    ensures
        exists|bonus_position: Position|
            final(session)@ == old(session)@.restarted(
                keyboard_input.restart,
                keyboard_input.cancel,
                bonus_position,
            ),
        final(session)@.wf(),
{
    let ghost before = session@;
    let ghost nowhere = Position { x: 0, y: 0 };
    if session.game_state != GameState::Over {
        assert(session@ == before.restarted(keyboard_input.restart, keyboard_input.cancel, nowhere));
        return ;
    }
    if keyboard_input.restart {
        if let Some(set) = session.border_set {
            session.score = Score(0);
            let ghost reset = session@;
            enter_ready(session, set);
            proof {
                let bonus_position = choose|bonus_position: Position|
                    #![auto]
                    set.is_free_bonus_position(bonus_position) && session@ == reset.made_ready(
                        set,
                        bonus_position,
                    );
                assert(session@ == before.restarted(true, keyboard_input.cancel, bonus_position));
            }
        }
    } else if keyboard_input.cancel {
        session.score = Score(0);
        session.border_set = None;
        session.game_state = GameState::Initialized;
        session.borders_visible = GameState::Initialized.are_borders_visible();
        spawn_border_set_buttons(session);
        assert(session@ == before.restarted(false, true, nowhere));
        assert(session@.buttons =~= fresh_buttons());
    } else {
        assert(session@ == before.restarted(false, false, nowhere));
    }
}

} // verus!

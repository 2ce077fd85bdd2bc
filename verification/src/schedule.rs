//! Which systems run in which state.

use crate::components::bonus::Bonus;
use crate::geometry::Position;
use crate::input::KeyboardInput;
use crate::resources::game_state::GameState;
use crate::session::{GameSession, SessionView};
use crate::systems::collision::Draws;
use crate::systems::initialized::border_set_choose_system;
use crate::systems::over::restart_game;
use crate::systems::paused::resume_game;
use crate::systems::ready::set_first_direction;
use crate::systems::running::{enter_pause, tick};
use vstd::prelude::*;

verus! {

impl SessionView {
    /// The session one frame later: the systems of the state it is in have
    /// run on the player's input, `delta` nanoseconds have passed and chance
    /// has decided `draws`. A tick of a running game is skipped in the frame
    /// in which the game is paused.
    pub open spec fn updated(self, input: KeyboardInput, delta: u64, draws: Draws) -> SessionView {
        match self.game_state {
            GameState::Initialized => self.chosen(draws.bonus_position),
            GameState::Ready => self.first_directed(input.direction()),
            GameState::Running => if input.pause {
                self.entered(GameState::Paused)
            } else {
                self.ticked(input.direction(), delta, draws)
            },
            GameState::Paused => self.switched(GameState::Paused, GameState::Running, input.pause),
            GameState::Over => self.restarted(input.restart, input.cancel, draws.bonus_position),
        }
    }
}

/// One frame of the game: runs the systems of the state the session is in.
pub fn update(session: &mut GameSession, keyboard_input: &mut KeyboardInput, delta: u64)
    requires
        old(session)@.wf(),
        old(session)@.score + Bonus::ExtraBonus.points() <= u32::MAX,
    ensures
        exists|draws: Draws|
            final(session)@ == old(session)@.updated(*old(keyboard_input), delta, draws),
        *final(keyboard_input) == old(keyboard_input).pause_used(
            old(session)@.game_state == GameState::Running || old(session)@.game_state
                == GameState::Paused,
        ),
        final(session)@.wf(),
{
    let ghost before = session@;
    let ghost input = *keyboard_input;
    let ghost nowhere = Position { x: 0, y: 0 };
    match session.game_state {
        GameState::Initialized => {
            border_set_choose_system(session);
            proof {
                let position = choose|position: Position| session@ == before.chosen(position);
                assert(session@ == before.updated(input, delta, Draws::only(position)));
            }
        },
        GameState::Ready => {
            set_first_direction(session, keyboard_input);
            assert(session@ == before.updated(input, delta, Draws::only(nowhere)));
        },
        GameState::Running => {
            enter_pause(session, keyboard_input);
            if session.game_state == GameState::Running {
                tick(session, keyboard_input, delta);
                proof {
                    let asked = input.direction();
                    let draws = choose|draws: Draws|
                        #![auto]
                        draws.valid_for(before.border_set) && session@ == before.ticked(
                            asked,
                            delta,
                            draws,
                        );
                    assert(session@ == before.updated(input, delta, draws));
                }
            } else {
                assert(session@ == before.updated(input, delta, Draws::only(nowhere)));
            }
        },
        GameState::Paused => {
            resume_game(session, keyboard_input);
            assert(session@ == before.updated(input, delta, Draws::only(nowhere)));
        },
        GameState::Over => {
            restart_game(session, keyboard_input);
            proof {
                let position = choose|position: Position|
                    session@ == before.restarted(input.restart, input.cancel, position);
                assert(session@ == before.updated(input, delta, Draws::only(position)));
            }
        },
    }
}

} // verus!

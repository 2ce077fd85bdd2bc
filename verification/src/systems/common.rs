//! What the systems of several states share.

use crate::components::snake::SnakeDirection;
use crate::input::KeyboardInput;
use crate::resources::game_state::GameState;
use crate::session::{GameSession, SessionView};
use vstd::prelude::*;

verus! {

impl KeyboardInput {
    /// The direction that the held keys ask for. Where several are held, a
    /// vertical one wins over a horizontal one, down over up and left over
    /// right.
    pub open spec fn direction(self) -> Option<SnakeDirection> {
        if self.down {
            Some(SnakeDirection::Down)
        } else if self.up {
            Some(SnakeDirection::Up)
        } else if self.left {
            Some(SnakeDirection::Left)
        } else if self.right {
            Some(SnakeDirection::Right)
        } else {
            None
        }
    }

    /// The input once a system that listens to the pause key has seen it, if
    /// `listened`: the key press is used up.
    pub open spec fn pause_used(self, listened: bool) -> KeyboardInput {
        if listened {
            KeyboardInput { pause: false, ..self }
        } else {
            self
        }
    }
}

impl SessionView {
    /// The session once it has entered `target`: the borders are shown or
    /// hidden as that state asks.
    pub open spec fn entered(self, target: GameState) -> SessionView {
        SessionView { game_state: target, borders_visible: target.borders_visible(), ..self }
    }

    /// The session once a key that takes it from `from` to `target` has been
    /// `pressed` or not: in any other state the key does nothing.
    pub open spec fn switched(self, from: GameState, target: GameState, pressed: bool) -> SessionView {
        if self.game_state == from && pressed {
            self.entered(target)
        } else {
            self
        }
    }
}

/// Changes the border visibility when the game is paused or resumed.
pub fn compute_borders_visibility(session: &mut GameSession)
    ensures
        final(session)@ == (SessionView {
            borders_visible: old(session)@.game_state.borders_visible(),
            ..old(session)@
        }),
{
    session.borders_visible = session.game_state.are_borders_visible();
}

/// Change the current state to the target state if the key that asks for it
/// has just been pressed, and use the key press up.
pub fn change_system_if_inputs_pressed(
    target_state: GameState,
    just_pressed: &mut bool,
    session: &mut GameSession,
)
    ensures
        *old(just_pressed) ==> final(session)@ == old(session)@.entered(target_state),
        !*old(just_pressed) ==> final(session)@ == old(session)@,
        !*final(just_pressed),
{
    if *just_pressed {
        session.game_state = target_state;
        *just_pressed = false;
        compute_borders_visibility(session);
    }
}

/// The direction asked for by the keys that are held.
pub fn get_direction_from_input(keyboard_input: &KeyboardInput) -> (direction: Option<
    SnakeDirection,
>)
    ensures
        direction == keyboard_input.direction(),
{
    let mut direction: Option<SnakeDirection> = None;
    if keyboard_input.right {
        direction = Some(SnakeDirection::Right);
    }
    if keyboard_input.left {
        direction = Some(SnakeDirection::Left);
    }
    if keyboard_input.up {
        direction = Some(SnakeDirection::Up);
    }
    if keyboard_input.down {
        direction = Some(SnakeDirection::Down);
    }
    direction
}

} // verus!

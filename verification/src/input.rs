//! What the player does during one frame, as the host reports it.

use vstd::prelude::*;

verus! {

/// The keys that matter to the game, as they stand in one frame.
#[derive(Debug, Eq, PartialEq, Copy, Clone, Structural)]
pub struct KeyboardInput {
    /// A key that steers to the right is held.
    pub right: bool,
    /// A key that steers to the left is held.
    pub left: bool,
    /// A key that steers upwards is held.
    pub up: bool,
    /// A key that steers downwards is held.
    pub down: bool,
    /// A key that pauses or resumes the game has just been pressed.
    pub pause: bool,
    /// The key that restarts the game has just been pressed.
    pub restart: bool,
    /// The key that goes back to the choice of a border set has just been pressed.
    pub cancel: bool,
}

/// What the pointer does to a button.
#[derive(Debug, Eq, PartialEq, Copy, Clone, Structural)]
pub enum Interaction {
    /// The button has been clicked.
    Clicked,
    /// The pointer is over the button.
    Hovered,
    /// Nothing happens to the button.
    Idle,
}

impl Default for KeyboardInput {
    /// A frame in which no key is down.
    fn default() -> (input: Self)
        ensures
            input == (KeyboardInput {
                right: false,
                left: false,
                up: false,
                down: false,
                pause: false,
                restart: false,
                cancel: false,
            }),
    {
        KeyboardInput {
            right: false,
            left: false,
            up: false,
            down: false,
            pause: false,
            restart: false,
            cancel: false,
        }
    }
}

} // verus!

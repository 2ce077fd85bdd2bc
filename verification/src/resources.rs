//! The state shared by the systems of the game.

pub mod border_set;
pub mod game_state;
pub mod score;

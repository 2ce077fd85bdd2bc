//! The systems: what happens to the session in each state of the game.

pub mod collision;
pub mod common;
pub mod initialized;
pub mod over;
pub mod paused;
pub mod ready;
pub mod running;

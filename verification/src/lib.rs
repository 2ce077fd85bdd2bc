//! The rules of a snake game, apart from any window, keyboard or clock.
//!
//! A [`session::GameSession`] holds everything that a playthrough owns: the
//! state of the application, the border set the player has picked, the snake
//! and its queue, the bonuses, the borders and the score. The functions under
//! [`systems`] say what happens to it in each state, and
//! [`schedule::update`] runs those of the state the session is in, once per
//! frame. The host hands over the keys that are down and the time that has
//! passed, and draws what the session holds.
//!
//! Lengths and positions are fixed-point integers, a tenth of a pixel each
//! (see [`common`]); durations are whole nanoseconds. Chance comes from the
//! thread-local generator of the `rand` crate, through the two functions of
//! [`random`]. What is done with a draw is always the work of a function that
//! takes the outcome as an argument, and is fully determined.
//!
//! Each function states what it does as a function of the mathematical value
//! of the session, its [`session::SessionView`]; [`laws`] holds what follows
//! for every session.

pub mod common;
pub mod components;
pub mod geometry;
pub mod input;
pub mod laws;
pub mod random;
pub mod resources;
pub mod schedule;
pub mod session;
pub mod systems;

//! The kinds of entity that take part in a playthrough.

pub mod bonus;
pub mod border;
pub mod snake;

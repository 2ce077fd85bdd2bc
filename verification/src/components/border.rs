//! The walls of the playfield.

use crate::geometry::{Dimensions, Position};
use vstd::prelude::*;

verus! {

/// A border is a non traversable component that will result in a game over once collided.
#[derive(Clone, Copy, Debug, PartialEq, Eq, Structural)]
pub struct Border {
    /// The centre of the wall.
    pub position: Position,
    /// Its width and height.
    pub dimensions: Dimensions,
}

} // verus!

//! The snake and the directions it can travel in.

use crate::geometry::Position;
use vstd::prelude::*;

verus! {

/// The snake direction in a 2D plane.
#[derive(Debug, Eq, PartialEq, Copy, Clone, Structural)]
pub enum SnakeDirection {
    Up,
    Down,
    Left,
    Right,
}

impl SnakeDirection {
    /// The direction that reverses this one.
    pub open spec fn opposite(self) -> Self {
        match self {
            Self::Up => Self::Down,
            Self::Down => Self::Up,
            Self::Left => Self::Right,
            Self::Right => Self::Left,
        }
    }

    /// Whether turning from this direction to `other` is a reversal.
    pub open spec fn conflicts(self, other: Self) -> bool {
        other == self.opposite()
    }

    /// The step of one unit in this direction.
    pub open spec fn vector(self) -> Position {
        match self {
            Self::Up => Position { x: 0, y: 1 },
            Self::Down => Position { x: 0, y: -1i32 },
            Self::Right => Position { x: 1, y: 0 },
            Self::Left => Position { x: -1i32, y: 0 },
        }
    }

    /// Get the conflictual direction.
    ///
    /// ie, going upward is impossible for the snake if he is already
    /// going down.
    pub fn get_conflictual_direction(&self) -> (conflictual: Self)
        ensures
            conflictual == self.opposite(),
    {
        match self {
            Self::Up => Self::Down,
            Self::Down => Self::Up,
            Self::Left => Self::Right,
            Self::Right => Self::Left,
        }
    }

    /// Returns whether the current direction conflicts with another.
    pub fn conflicts_with(&self, other: Self) -> (conflict: bool)
        ensures
            conflict == self.conflicts(other),
    {
        self.get_conflictual_direction() == other
    }

    /// Returns the current direction as a translatable vector.
    pub fn into_translation(self) -> (translation: Position)
        ensures
            translation == self.vector(),
    {
        match self {
            Self::Up => Position { x: 0, y: 1 },
            Self::Down => Position { x: 0, y: -1 },
            Self::Right => Position { x: 1, y: 0 },
            Self::Left => Position { x: -1, y: 0 },
        }
    }
}

/// The snake is the player.
#[derive(Debug, Copy, Clone, PartialEq, Eq, Structural)]
pub struct Snake {
    /// The snake direction.
    pub direction: Option<SnakeDirection>,
    /// Where the head is.
    pub position: Position,
    /// Its last position.
    pub last_position: Position,
}

impl Default for Snake {
    /// A snake at rest on the centre of the screen.
    fn default() -> (snake: Self)
        ensures
            snake == (Snake {
                direction: None,
                position: Position { x: 0, y: 0 },
                last_position: Position { x: 0, y: 0 },
            }),
    {
        Snake {
            direction: None,
            position: Position { x: 0, y: 0 },
            last_position: Position { x: 0, y: 0 },
        }
    }
}

/// A reversal is always a conflict and keeping one's direction never is.
pub proof fn lemma_direction_conflicts(d: SnakeDirection)
    ensures
        d.conflicts(d.opposite()),
        !d.conflicts(d),
{
}

/// Reversing twice gives the direction back, so conflict is symmetric.
pub proof fn lemma_opposite_involutive(d: SnakeDirection, other: SnakeDirection)
    ensures
        d.opposite().opposite() == d,
        d.conflicts(other) == other.conflicts(d),
{
}

} // verus!

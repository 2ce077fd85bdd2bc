//! The bonuses the snake feeds on.

use vstd::prelude::*;

verus! {

/// A bonus once collided with the snake will increase its size, and thus the
/// player's score.
#[derive(Clone, Copy, Debug, PartialEq, Eq, Structural)]
pub enum Bonus {
    /// A normal bonus only increase the player score by a single point.
    ///
    /// Once a normal bonus is collided, another one spawns indefinitely.
    Normal,
    /// An extra bonus is a rare bonus that will increase the player by more points.
    ///
    /// Extra bonuses are rare and appear randomly once a normal bonus is collided by the snake.
    ExtraBonus,
}

impl Bonus {
    /// The points the bonus is worth.
    pub open spec fn points(self) -> u32 {
        match self {
            Bonus::Normal => 1,
            Bonus::ExtraBonus => 5,
        }
    }

    /// Returns the number of points that are rewarded for
    /// colliding with the bonus.
    pub fn get_points(&self) -> (points: u32)
        ensures
            points == self.points(),
    {
        match self {
            Bonus::Normal => 1,
            Bonus::ExtraBonus => 5,
        }
    }
}

impl Default for Bonus {
    fn default() -> (bonus: Self)
        ensures
            bonus == Bonus::Normal,
    {
        Bonus::Normal
    }
}

} // verus!

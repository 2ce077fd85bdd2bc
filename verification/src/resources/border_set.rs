//! The catalogue of wall layouts.

use crate::common::{
    BONUS_DIAMETER, BORDER_SIZE, MAX_PLACEMENT_ATTEMPTS, MAX_SCREEN_HEIGHT, MAX_SCREEN_WIDTH,
    MIN_SCREEN_HEIGHT, MIN_SCREEN_WIDTH, SCREEN_HEIGHT, SCREEN_WIDTH,
};
use crate::components::border::Border;
use crate::geometry::{collide, overlaps, Dimensions, Position};
use crate::random::gen_range;
use vstd::prelude::*;
use vstd::string::StringExecFns;

verus! {

/// A border set is a preset of borders that will be spawned during the game.
#[derive(Debug, Eq, PartialEq, Copy, Clone, Structural)]
pub enum BorderSet {
    /// Borders are the screen limit.
    Screen,
    /// Borders are a cross that cross each others
    /// in the middle of the screen.
    Cross,
    /// One single border that is the width of the screen and
    /// located in the middle of the screen.
    Horizontal,
    /// Same as horizontal, but with the height of the screen.
    Vertical,
}

/// The wall across the middle of the screen, from left to right.
pub open spec fn horizontal_wall() -> Border {
    Border {
        position: Position { x: 0, y: 0 },
        dimensions: Dimensions { width: SCREEN_WIDTH, height: BORDER_SIZE },
    }
}

/// The wall across the middle of the screen, from top to bottom.
pub open spec fn vertical_wall() -> Border {
    Border {
        position: Position { x: 0, y: 0 },
        dimensions: Dimensions { width: BORDER_SIZE, height: SCREEN_HEIGHT },
    }
}

/// The size of the square that a bonus occupies.
pub open spec fn bonus_dimensions() -> Dimensions {
    Dimensions { width: BONUS_DIAMETER, height: BONUS_DIAMETER }
}

/// Whether a rectangle overlaps at least one of `borders`.
pub open spec fn hits_any_border(borders: Seq<Border>, position: Position, size: Dimensions) -> bool {
    exists|i: int|
        0 <= i < borders.len() && overlaps(
            (#[trigger] borders[i]).position,
            borders[i].dimensions,
            position,
            size,
        )
}

/// Whether a bonus may be put at `position` in `border_set`; without a border
/// set it may be put anywhere.
pub open spec fn is_free_in(border_set: Option<BorderSet>, position: Position) -> bool {
    border_set matches Some(set) ==> set.is_free_bonus_position(position)
}

impl BorderSet {
    /// Every border set, in the order in which they are offered to the player.
    pub open spec fn all() -> Seq<BorderSet> {
        seq![BorderSet::Screen, BorderSet::Cross, BorderSet::Horizontal, BorderSet::Vertical]
    }

    /// The name shown on the button of this border set.
    pub open spec fn name(self) -> Seq<char> {
        match self {
            BorderSet::Screen => "Screen"@,
            BorderSet::Cross => "Cross"@,
            BorderSet::Horizontal => "Horizontal"@,
            BorderSet::Vertical => "Vertical"@,
        }
    }

    /// The walls of this border set.
    pub open spec fn borders(self) -> Seq<Border> {
        match self {
            BorderSet::Screen => seq![
                Border {
                    position: Position { x: 0, y: MAX_SCREEN_HEIGHT },
                    dimensions: Dimensions { width: SCREEN_WIDTH, height: BORDER_SIZE },
                },
                Border {
                    position: Position { x: 0, y: MIN_SCREEN_HEIGHT },
                    dimensions: Dimensions { width: SCREEN_WIDTH, height: BORDER_SIZE },
                },
                Border {
                    position: Position { x: MAX_SCREEN_WIDTH, y: 0 },
                    dimensions: Dimensions { width: BORDER_SIZE, height: SCREEN_HEIGHT },
                },
                Border {
                    position: Position { x: MIN_SCREEN_WIDTH, y: 0 },
                    dimensions: Dimensions { width: BORDER_SIZE, height: SCREEN_HEIGHT },
                },
            ],
            BorderSet::Horizontal => seq![horizontal_wall()],
            BorderSet::Vertical => seq![vertical_wall()],
            BorderSet::Cross => seq![vertical_wall(), horizontal_wall()],
        }
    }

    /// Where the snake starts.
    pub open spec fn snake_initial_position(self) -> Position {
        match self {
            BorderSet::Screen => Position { x: 0, y: 0 },
            _ => Position { x: -1500i32, y: 1500 },
        }
    }

    /// Whether a bonus may be put at `position`: inside the screen limits and
    /// clear of every wall of this border set.
    pub open spec fn is_free_bonus_position(self, position: Position) -> bool {
        &&& MIN_SCREEN_WIDTH <= position.x < MAX_SCREEN_WIDTH
        &&& MIN_SCREEN_HEIGHT <= position.y < MAX_SCREEN_HEIGHT
        &&& !hits_any_border(self.borders(), position, bonus_dimensions())
    }

    /// The position given to a bonus when no draw has found a free one.
    pub open spec fn spare_bonus_position(self) -> Position {
        Position { x: 1500, y: -1500i32 }
    }

    /// Returns all the possible border sets.
    pub fn iterator() -> (sets: Vec<Self>)
        ensures
            sets@ == Self::all(),
    {
        let sets = vec![
            BorderSet::Screen,
            BorderSet::Cross,
            BorderSet::Horizontal,
            BorderSet::Vertical,
        ];
        assert(sets@ =~= Self::all());
        sets
    }

    /// The name of the border set, as it is written on its button.
    pub fn to_string(&self) -> (name: String)
        ensures
            name@ == self.name(),
    {
        match self {
            BorderSet::Screen => String::from_str("Screen"),
            BorderSet::Cross => String::from_str("Cross"),
            BorderSet::Horizontal => String::from_str("Horizontal"),
            BorderSet::Vertical => String::from_str("Vertical"),
        }
    }

    /// Defines the possible borders for each border set.
    pub fn get_borders(&self) -> (borders: Vec<Border>)
        ensures
            borders@ == self.borders(),
    {
        let horizontal = Border {
            position: Position { x: 0, y: 0 },
            dimensions: Dimensions { width: SCREEN_WIDTH, height: BORDER_SIZE },
        };
        let vertical = Border {
            position: Position { x: 0, y: 0 },
            dimensions: Dimensions { width: BORDER_SIZE, height: SCREEN_HEIGHT },
        };
        let borders = match self {
            BorderSet::Screen => vec![
                Border {
                    position: Position { x: 0, y: MAX_SCREEN_HEIGHT },
                    dimensions: Dimensions { width: SCREEN_WIDTH, height: BORDER_SIZE },
                },
                Border {
                    position: Position { x: 0, y: MIN_SCREEN_HEIGHT },
                    dimensions: Dimensions { width: SCREEN_WIDTH, height: BORDER_SIZE },
                },
                Border {
                    position: Position { x: MAX_SCREEN_WIDTH, y: 0 },
                    dimensions: Dimensions { width: BORDER_SIZE, height: SCREEN_HEIGHT },
                },
                Border {
                    position: Position { x: MIN_SCREEN_WIDTH, y: 0 },
                    dimensions: Dimensions { width: BORDER_SIZE, height: SCREEN_HEIGHT },
                },
            ],
            BorderSet::Horizontal => vec![horizontal],
            BorderSet::Vertical => vec![vertical],
            BorderSet::Cross => vec![vertical, horizontal],
        };
        assert(borders@ =~= self.borders());
        borders
    }

    /// The snake initial position depends of the border set,
    /// this methods returns a good snake position for each of
    /// the border set.
    pub fn get_snake_initial_position(&self) -> (position: Position)
        ensures
            position == self.snake_initial_position(),
    {
        match self {
            BorderSet::Screen => Position { x: 0, y: 0 },
            _ => Position { x: -1500, y: 1500 },
        }
    }

    /// The position given to a bonus when no draw has found a free one. It is
    /// free in every border set.
    pub fn get_spare_bonus_position(&self) -> (position: Position)
        ensures
            position == self.spare_bonus_position(),
            self.is_free_bonus_position(position),
    {
        proof {
            lemma_spare_bonus_position_is_free(*self);
        }
        Position { x: 1500, y: -1500 }
    }

    /// Tells whether a bonus may be put at `position`.
    pub fn is_bonus_position_free(&self, position: Position) -> (free: bool)
        ensures
            free == self.is_free_bonus_position(position),
    {
        if position.x < MIN_SCREEN_WIDTH || position.x >= MAX_SCREEN_WIDTH {
            return false;
        }
        if position.y < MIN_SCREEN_HEIGHT || position.y >= MAX_SCREEN_HEIGHT {
            return false;
        }
        let size = Dimensions { width: BONUS_DIAMETER, height: BONUS_DIAMETER };
        let borders = self.get_borders();
        let hit = collides_with_any(&borders, position, size);
        !hit
    }

    /// Compute the random non collidable position for the given border set.
    ///
    /// This is useful when you need to spawn a bonus randomly for instance.
    /// Positions are drawn within the screen limits until one is clear of
    /// every border. Should `MAX_PLACEMENT_ATTEMPTS` draws in a row fail, the
    /// spare position of the border set is returned.
    pub fn compute_random_bonus_position(&self) -> (position: Position)
        ensures
            self.is_free_bonus_position(position),
    {
        let mut attempts: u32 = 0;
        while attempts < MAX_PLACEMENT_ATTEMPTS
            invariant
                attempts <= MAX_PLACEMENT_ATTEMPTS,
            decreases MAX_PLACEMENT_ATTEMPTS - attempts,
        {
            // It has to be spawned within the screen limits ...
            let x = gen_range(MIN_SCREEN_WIDTH, MAX_SCREEN_WIDTH);
            let y = gen_range(MIN_SCREEN_HEIGHT, MAX_SCREEN_HEIGHT);
            let random_position = Position { x, y };
            // ... and checked that it doesn't collide with any of the borders.
            if self.is_bonus_position_free(random_position) {
                return random_position;
            }
            attempts += 1;
        }
        self.get_spare_bonus_position()
    }
}

/// Tells whether a rectangle overlaps at least one of `borders`.
pub fn collides_with_any(borders: &Vec<Border>, position: Position, size: Dimensions) -> (hit: bool)
    ensures
        hit == hits_any_border(borders@, position, size),
{
    let mut i: usize = 0;
    while i < borders.len()
        invariant
            i <= borders.len(),
            forall|j: int|
                0 <= j < i ==> !overlaps(
                    (#[trigger] borders@[j]).position,
                    borders@[j].dimensions,
                    position,
                    size,
                ),
        decreases borders.len() - i,
    {
        if collide(borders[i].position, borders[i].dimensions, position, size) {
            return true;
        }
        i += 1;
    }
    false
}

/// The spare bonus position of every border set is free.
pub proof fn lemma_spare_bonus_position_is_free(set: BorderSet)
    ensures
        set.is_free_bonus_position(set.spare_bonus_position()),
{
}

} // verus!

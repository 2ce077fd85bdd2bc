//! Constants of the playfield and of the game's rules.
//!
//! Lengths are fixed-point integers: one unit is a tenth of a pixel, so that
//! the snake's speed of four and a half pixels per tick is a whole number.

use vstd::prelude::*;

verus! {

/// Units in one pixel.
pub const UNITS_PER_PIXEL: i32 = 10;

/// The screen height.
pub const SCREEN_HEIGHT: i32 = 480 * UNITS_PER_PIXEL;

pub const MAX_SCREEN_HEIGHT: i32 = 240 * UNITS_PER_PIXEL;

pub const MIN_SCREEN_HEIGHT: i32 = -MAX_SCREEN_HEIGHT;

/// The screen width.
pub const SCREEN_WIDTH: i32 = 640 * UNITS_PER_PIXEL;

pub const MAX_SCREEN_WIDTH: i32 = 320 * UNITS_PER_PIXEL;

pub const MIN_SCREEN_WIDTH: i32 = -MAX_SCREEN_WIDTH;

/// The snake head size, same size for each queue member.
pub const SNAKE_SIZE: i32 = 10 * UNITS_PER_PIXEL;

/// The distance the snake travels in one tick: four pixels and a half.
pub const SNAKE_SPEED_FACTOR: i32 = 45;

/// The bonus diameter.
pub const BONUS_DIAMETER: i32 = 10 * UNITS_PER_PIXEL;

/// The thickness of each border.
pub const BORDER_SIZE: i32 = 15 * UNITS_PER_PIXEL;

/// The chance that an extra bonus spawns, as a percentage.
pub const CHANCE_OF_EXTRA_BONUS: u32 = 10;

/// What a percentage is a part of.
pub const PERCENT: u32 = 100;

/// The time the player has to get an extra bonus, in nanoseconds.
pub const TIME_FOR_BONUS: u64 = 10_000_000_000;

/// How many positions are drawn for a bonus before a fixed free one is taken.
pub const MAX_PLACEMENT_ATTEMPTS: u32 = 1_000_000;

} // verus!

//! Points, extents and the axis-aligned overlap test.

use vstd::prelude::*;

verus! {

/// A point of the playfield. Coordinates are fixed-point: one unit is a tenth
/// of a pixel, the origin is the centre of the screen and `y` grows upwards.
#[derive(Clone, Copy, Debug, PartialEq, Eq, Structural)]
pub struct Position {
    pub x: i32,
    pub y: i32,
}

/// Width and height of a rectangle, in the units of [`Position`].
#[derive(Clone, Copy, Debug, PartialEq, Eq, Structural)]
pub struct Dimensions {
    pub width: i32,
    pub height: i32,
}

/// Whether the rectangle of size `a_size` centred on `a_pos` and the one of
/// size `b_size` centred on `b_pos` overlap. Rectangles that only touch along
/// an edge do not overlap. Both sides of each comparison are doubled, so that
/// half extents need no division.
pub open spec fn overlaps(
    a_pos: Position,
    a_size: Dimensions,
    b_pos: Position,
    b_size: Dimensions,
) -> bool {
    &&& 2 * a_pos.x - a_size.width < 2 * b_pos.x + b_size.width
    &&& 2 * a_pos.x + a_size.width > 2 * b_pos.x - b_size.width
    &&& 2 * a_pos.y - a_size.height < 2 * b_pos.y + b_size.height
    &&& 2 * a_pos.y + a_size.height > 2 * b_pos.y - b_size.height
}

/// Axis-aligned bounding box collision of two rectangles given by their
/// centres and sizes.
pub fn collide(a_pos: Position, a_size: Dimensions, b_pos: Position, b_size: Dimensions) -> (hit:
    bool)
    ensures
        hit == overlaps(a_pos, a_size, b_pos, b_size),
{
    let ax: i64 = 2 * (a_pos.x as i64);
    let ay: i64 = 2 * (a_pos.y as i64);
    let bx: i64 = 2 * (b_pos.x as i64);
    let by: i64 = 2 * (b_pos.y as i64);
    let aw: i64 = a_size.width as i64;
    let ah: i64 = a_size.height as i64;
    let bw: i64 = b_size.width as i64;
    let bh: i64 = b_size.height as i64;
    ax - aw < bx + bw && ax + aw > bx - bw && ay - ah < by + bh && ay + ah > by - bh
}

} // verus!

//! Fixed-point vectors and rectangles.

use vstd::prelude::*;

verus! {

/// Sub-pixels to one pixel.
pub const SUBPIXELS: i64 = 3600;

/// Simulation ticks to one second.
pub const TICKS_PER_SECOND: i64 = 60;

/// Largest coordinate magnitude that area and count computations accept:
/// about three hundred million pixels.
pub const COORD_BOUND: i64 = 1_099_511_627_776;

/// Whether an integer fits in an `i64`.
pub open spec fn fits_i64(v: int) -> bool {
    i64::MIN <= v <= i64::MAX
}

/// A point or a displacement, in sub-pixels.
#[derive(Clone, Copy, Debug, PartialEq, Eq, Structural)]
pub struct Vec2 {
    pub x: i64,
    pub y: i64,
}

impl Vec2 {
    pub fn new(x: i64, y: i64) -> (r: Vec2)
        ensures
            r.x == x,
            r.y == y,
    {
        Vec2 { x, y }
    }

    /// The point `(x, y)` given in whole pixels.
    pub fn from_pixels(x: i32, y: i32) -> (r: Vec2)
        ensures
            r.x == x * SUBPIXELS,
            r.y == y * SUBPIXELS,
    {
        Vec2 { x: x as i64 * SUBPIXELS, y: y as i64 * SUBPIXELS }
    }
}

/// An axis-aligned rectangle given by its four edges, in sub-pixels,
/// with `y` growing upwards.
///
/// Used both for world rectangles (level boundaries) and for offsets from an
/// entity's origin (sprite boundaries).
#[derive(Clone, Copy, Debug, PartialEq, Eq, Structural)]
pub struct Rect {
    pub left: i64,
    pub right: i64,
    pub top: i64,
    pub bottom: i64,
}

impl Rect {
    /// The rectangle with the given edges in whole pixels.
    pub fn from_pixels(left: i32, right: i32, top: i32, bottom: i32) -> (r: Rect)
        ensures
            r.left == left * SUBPIXELS,
            r.right == right * SUBPIXELS,
            r.top == top * SUBPIXELS,
            r.bottom == bottom * SUBPIXELS,
    {
        Rect {
            left: left as i64 * SUBPIXELS,
            right: right as i64 * SUBPIXELS,
            top: top as i64 * SUBPIXELS,
            bottom: bottom as i64 * SUBPIXELS,
        }
    }

    /// Every edge lies within [`COORD_BOUND`] of the origin.
    pub open spec fn bounded(self) -> bool {
        &&& -COORD_BOUND <= self.left <= COORD_BOUND
        &&& -COORD_BOUND <= self.right <= COORD_BOUND
        &&& -COORD_BOUND <= self.top <= COORD_BOUND
        &&& -COORD_BOUND <= self.bottom <= COORD_BOUND
    }
}

} // verus!

//! The coordinate primitive: a two-component point on the `u8` grid,
//! with componentwise arithmetic helpers and the squared-distance
//! primitive that the distance computations build on.

use vstd::prelude::*;

verus! {

/// A point on the two-dimensional `[0, 255] x [0, 255]` grid.
#[derive(Clone, Copy, Debug, PartialEq, Eq, Hash, PartialOrd, Ord, Structural)]
pub struct Point {
    pub x: u8,
    pub y: u8,
}

impl Point {
    /// Builds the point with the given coordinates.
    pub fn new(x: u8, y: u8) -> (r: Point)
        ensures
            r == (Point { x, y }),
    {
        Point { x, y }
    }
}

/// Lexicographic order on points: by `x` first, then by `y`.
pub open spec fn lex_le(a: Point, b: Point) -> bool {
    a.x < b.x || (a.x == b.x && a.y <= b.y)
}

/// Clamps an integer onto the `u8` grid range.
pub open spec fn clamp_u8(v: int) -> u8 {
    if v < 0 {
        0
    } else if v > 255 {
        255
    } else {
        v as u8
    }
}

/// The absolute difference of two grid coordinates.
pub open spec fn abs_diff(a: u8, b: u8) -> int {
    if a >= b {
        a - b
    } else {
        b - a
    }
}

/// The squared Euclidean distance between two points.
pub open spec fn dist_sq(a: Point, b: Point) -> int {
    abs_diff(a.x, b.x) * abs_diff(a.x, b.x) + abs_diff(a.y, b.y) * abs_diff(a.y, b.y)
}

/// Computes the squared Euclidean distance between two points.
///
/// The per-axis deltas are taken as `max - min`, so the subtraction never
/// underflows on unsigned coordinates.
pub fn distance_squared(a: &Point, b: &Point) -> (r: u32)
    ensures
        r == dist_sq(*a, *b),
        r <= 130050,
{
    let dx: u32 = if a.x >= b.x {
        (a.x - b.x) as u32
    } else {
        (b.x - a.x) as u32
    };
    let dy: u32 = if a.y >= b.y {
        (a.y - b.y) as u32
    } else {
        (b.y - a.y) as u32
    };
    assert(dx * dx <= 65025 && dy * dy <= 65025) by (nonlinear_arith)
        requires
            dx <= 255,
            dy <= 255,
    ;
    dx * dx + dy * dy
}

/// The squared distance between two points does not depend on the order of
/// its arguments.
pub proof fn lemma_distance_squared_symmetric(a: Point, b: Point)
    ensures
        dist_sq(a, b) == dist_sq(b, a),
{
}

} // verus!

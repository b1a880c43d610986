//! The axis-aligned rectangle, stored as normalized `(min, max)` corners,
//! and the grid enumeration that the other shapes' point enumerations
//! build on.

use vstd::prelude::*;
use vstd::arithmetic::div_mod::{
    lemma_fundamental_div_mod,
    lemma_fundamental_div_mod_converse_div,
    lemma_fundamental_div_mod_converse_mod,
    lemma_mod_bound,
};

use crate::point::Point;
use crate::traits::BoundingBox;
use crate::traits::Centroid;
use crate::traits::PointsInside;
use crate::traits::Within;

verus! {

/// An axis-aligned box with corners `min` and `max`.
///
/// Construction through [`Rectangle::new`] normalizes two arbitrary
/// corner points by taking their componentwise minimum and maximum, so
/// `min.x <= max.x` and `min.y <= max.y` hold for every normalized value.
#[derive(Clone, Copy, Debug, PartialEq, Eq, Hash, Structural)]
pub struct Rectangle {
    pub min: Point,
    pub max: Point,
}

/// The corner-ordering invariant of a normalized rectangle.
pub open spec fn rect_wf(r: Rectangle) -> bool {
    r.min.x <= r.max.x && r.min.y <= r.max.y
}

/// The normalized rectangle spanned by two arbitrary corner points:
/// the componentwise minimum and maximum of the two.
pub open spec fn rect_new_spec(a: Point, b: Point) -> Rectangle {
    Rectangle {
        min: Point { x: if a.x <= b.x { a.x } else { b.x }, y: if a.y <= b.y { a.y } else { b.y } },
        max: Point { x: if a.x >= b.x { a.x } else { b.x }, y: if a.y >= b.y { a.y } else { b.y } },
    }
}

/// Boundary-inclusive membership of a point in a rectangle: the interval
/// test on both axes.
pub open spec fn rect_contains(r: Rectangle, p: Point) -> bool {
    r.min.x <= p.x && p.x <= r.max.x && r.min.y <= p.y && p.y <= r.max.y
}

impl Rectangle {
    /// Builds a rectangle from corners that are already normalized.
    /// No validation is performed: callers that pass reversed corners get
    /// a value that breaks the [`rect_wf`] invariant downstream
    /// consumers assume.
    pub fn new_unchecked(min: Point, max: Point) -> (r: Rectangle)
        ensures
            r == (Rectangle { min, max }),
    {
        Rectangle { min, max }
    }

    /// The corner with the smallest coordinates.
    pub fn min(&self) -> (r: &Point)
        ensures
            r == self.min,
    {
        &self.min
    }

    /// The corner with the largest coordinates.
    pub fn max(&self) -> (r: &Point)
        ensures
            r == self.max,
    {
        &self.max
    }

    /// Builds the rectangle spanned by two arbitrary corner points,
    /// normalizing them into `(min, max)` form.
    pub fn new(a: Point, b: Point) -> (r: Rectangle)
        ensures
            r == rect_new_spec(a, b),
            rect_wf(r),
            r == rect_new_spec(b, a),
    {
        let x_max = if a.x > b.x { a.x } else { b.x };
        let x_min = if a.x < b.x { a.x } else { b.x };
        let y_max = if a.y > b.y { a.y } else { b.y };
        let y_min = if a.y < b.y { a.y } else { b.y };
        Rectangle::new_unchecked(Point::new(x_min, y_min), Point::new(x_max, y_max))
    }

    /// Returns the width of the rectangle.
    pub fn width(&self) -> (r: u8)
        requires
            rect_wf(*self),
        ensures
            r == self.max.x - self.min.x,
    {
        self.max.x - self.min.x
    }

    /// Returns the height of the rectangle.
    pub fn height(&self) -> (r: u8)
        requires
            rect_wf(*self),
        ensures
            r == self.max.y - self.min.y,
    {
        self.max.y - self.min.y
    }
}

/// Normalization is idempotent and order-independent: the constructed
/// rectangle's corners are componentwise ordered, and swapping the
/// arguments yields the same value.
pub proof fn lemma_rectangle_new_normalizes(a: Point, b: Point)
    ensures
        rect_wf(rect_new_spec(a, b)),
        rect_new_spec(a, b) == rect_new_spec(b, a),
{
}

/// The number of grid columns a rectangle covers.
pub open spec fn grid_w(r: Rectangle) -> int {
    if r.min.x <= r.max.x {
        r.max.x - r.min.x + 1
    } else {
        0
    }
}

/// The number of grid rows a rectangle covers.
pub open spec fn grid_h(r: Rectangle) -> int {
    if r.min.y <= r.max.y {
        r.max.y - r.min.y + 1
    } else {
        0
    }
}

/// Every grid point of a rectangle, column by column, each column in
/// ascending `y` order: the lexicographic enumeration of its points.
pub open spec fn rect_grid(r: Rectangle) -> Seq<Point> {
    Seq::new(
        (grid_w(r) * grid_h(r)) as nat,
        |i: int|
            Point {
                x: (r.min.x + i / grid_h(r)) as u8,
                y: (r.min.y + i % grid_h(r)) as u8,
            },
    )
}

/// The grid enumeration of a rectangle holds exactly the points the
/// rectangle contains, each of them once.
pub proof fn lemma_rect_grid(r: Rectangle)
    ensures
        rect_grid(r).no_duplicates(),
        forall|i: int|
            0 <= i < rect_grid(r).len() ==> rect_contains(r, #[trigger] rect_grid(r)[i]),
        forall|p: Point| rect_contains(r, p) ==> #[trigger] rect_grid(r).contains(p),
{
    let g = rect_grid(r);
    let w = grid_w(r);
    let h = grid_h(r);
    if w > 0 && h > 0 {
        assert forall|i: int| 0 <= i < g.len() implies rect_contains(r, #[trigger] g[i]) by {
            lemma_fundamental_div_mod(i, h);
            let q = i / h;
            let m = i % h;
            assert(0 <= m < h);
            assert(0 <= q && q < w) by (nonlinear_arith)
                requires
                    i == q * h + m,
                    0 <= m < h,
                    0 <= i < w * h,
            ;
        }
        assert forall|p: Point| rect_contains(r, p) implies #[trigger] g.contains(p) by {
            let i = (p.x - r.min.x) * h + (p.y - r.min.y);
            assert(0 <= i < w * h) by (nonlinear_arith)
                requires
                    0 <= p.x - r.min.x < w,
                    0 <= p.y - r.min.y < h,
                    i == (p.x - r.min.x) * h + (p.y - r.min.y),
            ;
            lemma_fundamental_div_mod_converse_div(i, h, p.x - r.min.x, p.y - r.min.y);
            lemma_fundamental_div_mod_converse_mod(i, h, p.x - r.min.x, p.y - r.min.y);
            assert(g[i] == p);
        }
        assert forall|i: int, j: int|
            0 <= i < g.len() && 0 <= j < g.len() && i != j implies g[i] != g[j] by {
            lemma_fundamental_div_mod(i, h);
            lemma_fundamental_div_mod(j, h);
            lemma_mod_bound(i, h);
            lemma_mod_bound(j, h);
            assert(0 <= i / h < w && 0 <= j / h < w) by (nonlinear_arith)
                requires
                    i == (i / h) * h + i % h,
                    j == (j / h) * h + j % h,
                    0 <= i % h < h,
                    0 <= j % h < h,
                    0 <= i < w * h,
                    0 <= j < w * h,
            ;
            if g[i] == g[j] {
                assert(r.min.x + i / h <= r.max.x && r.min.x + j / h <= r.max.x);
                assert(i / h == j / h && i % h == j % h);
                assert(i == j);
            }
        }
    } else {
        assert(w * h == 0) by (nonlinear_arith)
            requires
                w <= 0 || h <= 0,
                w >= 0 && h >= 0,
        ;
    }
}

/// One step of the grid enumeration: the element at a given column and
/// row offset, and how the prefix of the enumeration grows by it.
proof fn lemma_rect_grid_step(r: Rectangle, x: int, y: int)
    requires
        rect_wf(r),
        r.min.x <= x <= r.max.x,
        r.min.y <= y <= r.max.y,
    ensures
        0 <= (x - r.min.x) * grid_h(r) + (y - r.min.y) < rect_grid(r).len(),
        rect_grid(r)[(x - r.min.x) * grid_h(r) + (y - r.min.y)] == (Point {
            x: x as u8,
            y: y as u8,
        }),
{
    let w = grid_w(r);
    let h = grid_h(r);
    let i = (x - r.min.x) * h + (y - r.min.y);
    assert(0 <= i < w * h) by (nonlinear_arith)
        requires
            0 <= x - r.min.x < w,
            0 <= y - r.min.y < h,
            i == (x - r.min.x) * h + (y - r.min.y),
    ;
    lemma_fundamental_div_mod_converse_div(i, h, x - r.min.x, y - r.min.y);
    lemma_fundamental_div_mod_converse_mod(i, h, x - r.min.x, y - r.min.y);
}

impl BoundingBox for Rectangle {
    /// A rectangle is its own bounding box.
    open spec fn bbox_spec(&self) -> Rectangle {
        *self
    }

    fn bbox(&self) -> (r: Rectangle) {
        *self
    }
}

/// The centroid of a rectangle: the midpoint of its two corners.
pub open spec fn rect_centroid(r: Rectangle) -> Point {
    Point {
        x: ((r.min.x + r.max.x) / 2) as u8,
        y: ((r.min.y + r.max.y) / 2) as u8,
    }
}

impl Centroid for Rectangle {
    open spec fn centroid_defined(&self) -> bool {
        true
    }

    /// The midpoint of the two corners, computed on widened integers so
    /// the coordinate sums cannot overflow.
    open spec fn centroid_spec(&self) -> Point {
        rect_centroid(*self)
    }

    fn centroid(&self) -> (r: Point) {
        let x: u16 = (self.min.x as u16 + self.max.x as u16) / 2;
        let y: u16 = (self.min.y as u16 + self.max.y as u16) / 2;
        Point::new(x as u8, y as u8)
    }
}

impl Within for Rectangle {
    open spec fn within_spec(&self, p: Point) -> bool {
        rect_contains(*self, p)
    }

    fn within(&self, p: &Point) -> (r: bool) {
        self.min.x <= p.x && p.x <= self.max.x && self.min.y <= p.y && p.y <= self.max.y
    }
}

impl PointsInside for Rectangle {
    /// Enumerates the rectangle's grid points in lexicographic order
    /// (ascending `x`, then ascending `y`).
    fn points_inside(&self) -> (r: Vec<Point>)
        ensures
            r@ == rect_grid(*self),
    {
        let mut points: Vec<Point> = Vec::new();
        proof {
            lemma_rect_grid(*self);
        }
        if self.max.x < self.min.x || self.max.y < self.min.y {
            assert(grid_w(*self) * grid_h(*self) == 0) by (nonlinear_arith)
                requires
                    grid_w(*self) == 0 || grid_h(*self) == 0,
                    grid_w(*self) >= 0 && grid_h(*self) >= 0,
            ;
            assert(points@ =~= rect_grid(*self));
            return points;
        }
        let ghost g = rect_grid(*self);
        let ghost h = grid_h(*self);
        let x0: u16 = self.min.x as u16;
        let x1: u16 = self.max.x as u16;
        let y0: u16 = self.min.y as u16;
        let y1: u16 = self.max.y as u16;
        let mut x: u16 = x0;
        while x <= x1
            invariant
                rect_wf(*self),
                x0 == self.min.x && x1 == self.max.x && y0 == self.min.y && y1 == self.max.y,
                g == rect_grid(*self),
                h == grid_h(*self),
                x0 <= x <= x1 + 1,
                points@ =~= g.take((x - x0) * h),
            decreases x1 + 1 - x,
        {
            let mut y: u16 = y0;
            while y <= y1
                invariant
                    rect_wf(*self),
                    x0 == self.min.x && x1 == self.max.x && y0 == self.min.y && y1 == self.max.y,
                    g == rect_grid(*self),
                    h == grid_h(*self),
                    x0 <= x <= x1,
                    y0 <= y <= y1 + 1,
                    points@ =~= g.take((x - x0) * h + (y - y0)),
                decreases y1 + 1 - y,
            {
                proof {
                    lemma_rect_grid_step(*self, x as int, y as int);
                    assert(g.take((x - x0) * h + (y - y0) + 1) =~= g.take(
                        (x - x0) * h + (y - y0),
                    ).push(g[(x - x0) * h + (y - y0)]));
                }
                points.push(Point::new(x as u8, y as u8));
                y = y + 1;
            }
            proof {
                assert((x + 1 - x0) * h == (x - x0) * h + h) by (nonlinear_arith);
            }
            x = x + 1;
        }
        proof {
            assert((x1 + 1 - x0) * grid_h(*self) == g.len()) by (nonlinear_arith)
                requires
                    grid_w(*self) == x1 + 1 - x0,
                    g.len() == grid_w(*self) * grid_h(*self),
            ;
            assert(points@ =~= g);
        }
        points
    }
}

} // verus!

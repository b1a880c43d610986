//! The triangle primitive: an ordered triple of vertices.

use vstd::prelude::*;

use crate::point::Point;
use crate::point::clamp_u8;
use crate::rectangle::Rectangle;
use crate::rectangle::rect_contains;
use crate::rectangle::rect_grid;
use crate::traits::BoundingBox;
use crate::traits::Centroid;
use crate::traits::PointsInside;
use crate::traits::Within;
use crate::traits::filter_within;
use crate::traits::lemma_grid_filter_points;

verus! {

/// A triangle given by its three vertices.
///
/// The vertex order is caller-defined and not normalized: membership is
/// decided by an area decomposition that is free of the area's sign, so
/// any permutation of the vertices yields identical results.
#[derive(Clone, Copy, Debug, PartialEq, Eq, Hash, Structural)]
pub struct Triangle(pub Point, pub Point, pub Point);

impl Triangle {
    /// Builds the triangle with the given vertices.
    pub fn new(a: Point, b: Point, c: Point) -> (r: Triangle)
        ensures
            r == Triangle(a, b, c),
    {
        Triangle(a, b, c)
    }
}

/// The absolute value of an integer.
pub open spec fn abs_int(v: int) -> int {
    if v >= 0 {
        v
    } else {
        -v
    }
}

/// Twice the (unsigned) area of the triangle spanned by three points:
/// the absolute value of the cross product of two edge vectors.
pub open spec fn tri_area2(a: Point, b: Point, c: Point) -> int {
    abs_int((a.x - c.x) * (b.y - c.y) - (b.x - c.x) * (a.y - c.y))
}

/// The bounding box of a triangle: the componentwise minimum and maximum
/// of its vertices, with the high corner bumped one unit (saturating at
/// the grid edge) so the rasterized boundary is contained.
pub open spec fn tri_bbox(t: Triangle) -> Rectangle {
    Rectangle {
        min: Point {
            x: min3(t.0.x, t.1.x, t.2.x),
            y: min3(t.0.y, t.1.y, t.2.y),
        },
        max: Point {
            x: clamp_u8(max3(t.0.x, t.1.x, t.2.x) + 1),
            y: clamp_u8(max3(t.0.y, t.1.y, t.2.y) + 1),
        },
    }
}

/// The smallest of three grid coordinates.
pub open spec fn min3(a: u8, b: u8, c: u8) -> u8 {
    if a <= b && a <= c {
        a
    } else if b <= c {
        b
    } else {
        c
    }
}

/// The largest of three grid coordinates.
pub open spec fn max3(a: u8, b: u8, c: u8) -> u8 {
    if a >= b && a >= c {
        a
    } else if b >= c {
        b
    } else {
        c
    }
}

/// Boundary-inclusive membership of a point in a triangle: the point
/// must lie in the triangle's bounding box, and the triangle's area must
/// equal the sum of the areas of the three sub-triangles formed with the
/// point. The area comparison is exact integer arithmetic, so points on
/// an edge satisfy it exactly.
pub open spec fn tri_contains(t: Triangle, p: Point) -> bool {
    rect_contains(tri_bbox(t), p) && tri_area2(t.0, t.1, t.2) == tri_area2(p, t.1, t.2)
        + tri_area2(t.0, p, t.2) + tri_area2(t.0, t.1, p)
}

/// Every point within a triangle lies within its bounding box.
pub proof fn lemma_triangle_within_in_bbox(t: Triangle, p: Point)
    ensures
        tri_contains(t, p) ==> rect_contains(tri_bbox(t), p),
{
}

/// The unsigned area is symmetric: swapping the first two points flips
/// the sign of the cross product, and rotating the three points keeps
/// it, so the absolute value is unchanged by both.
proof fn lemma_area2_symmetries(a: Point, b: Point, c: Point)
    ensures
        tri_area2(a, b, c) == tri_area2(b, a, c),
        tri_area2(a, b, c) == tri_area2(b, c, a),
{
    assert((a.x - c.x) * (b.y - c.y) - (b.x - c.x) * (a.y - c.y) == (b.x - a.x) * (c.y - a.y) - (
    c.x - a.x) * (b.y - a.y)) by (nonlinear_arith);
}

/// The membership test does not depend on the vertex order: swapping or
/// rotating the vertices yields the same result, so any permutation
/// does.
pub proof fn lemma_triangle_vertex_order_irrelevant(a: Point, b: Point, c: Point, p: Point)
    ensures
        tri_contains(Triangle(a, b, c), p) == tri_contains(Triangle(b, a, c), p),
        tri_contains(Triangle(a, b, c), p) == tri_contains(Triangle(b, c, a), p),
{
    lemma_area2_symmetries(a, b, c);
    lemma_area2_symmetries(b, c, a);
    lemma_area2_symmetries(p, b, c);
    lemma_area2_symmetries(b, c, p);
    lemma_area2_symmetries(c, p, b);
    lemma_area2_symmetries(a, p, c);
    lemma_area2_symmetries(p, c, a);
    lemma_area2_symmetries(c, a, p);
    lemma_area2_symmetries(a, b, p);
    lemma_area2_symmetries(b, p, a);
    lemma_area2_symmetries(p, a, b);
}

/// Computes twice the unsigned area of the triangle spanned by three
/// points on widened signed integers.
fn area2(a: &Point, b: &Point, c: &Point) -> (r: i64)
    ensures
        r == tri_area2(*a, *b, *c),
        0 <= r <= 130050,
{
    let x1: i64 = a.x as i64 - c.x as i64;
    let y1: i64 = a.y as i64 - c.y as i64;
    let x2: i64 = b.x as i64 - c.x as i64;
    let y2: i64 = b.y as i64 - c.y as i64;
    assert(-65025 <= x1 * y2 <= 65025 && -65025 <= x2 * y1 <= 65025) by (nonlinear_arith)
        requires
            -255 <= x1 <= 255 && -255 <= y2 <= 255 && -255 <= x2 <= 255 && -255 <= y1 <= 255,
    ;
    let cross: i64 = x1 * y2 - x2 * y1;
    if cross >= 0 {
        cross
    } else {
        -cross
    }
}

impl BoundingBox for Triangle {
    open spec fn bbox_spec(&self) -> Rectangle {
        tri_bbox(*self)
    }

    fn bbox(&self) -> (r: Rectangle) {
        let min_x = if self.0.x <= self.1.x && self.0.x <= self.2.x {
            self.0.x
        } else if self.1.x <= self.2.x {
            self.1.x
        } else {
            self.2.x
        };
        let min_y = if self.0.y <= self.1.y && self.0.y <= self.2.y {
            self.0.y
        } else if self.1.y <= self.2.y {
            self.1.y
        } else {
            self.2.y
        };
        let max_x = if self.0.x >= self.1.x && self.0.x >= self.2.x {
            self.0.x
        } else if self.1.x >= self.2.x {
            self.1.x
        } else {
            self.2.x
        };
        let max_y = if self.0.y >= self.1.y && self.0.y >= self.2.y {
            self.0.y
        } else if self.1.y >= self.2.y {
            self.1.y
        } else {
            self.2.y
        };
        let bump_x = if max_x == 255 { 255 } else { max_x + 1 };
        let bump_y = if max_y == 255 { 255 } else { max_y + 1 };
        Rectangle::new_unchecked(Point::new(min_x, min_y), Point::new(bump_x, bump_y))
    }
}

/// The centroid of a triangle: the arithmetic mean of its vertices,
/// each coordinate sum divided by three and rounded to the nearest grid
/// coordinate. `(2*s + 3) / 6` is that nearest integer: a tie cannot
/// occur when dividing an integer by three.
pub open spec fn tri_centroid(t: Triangle) -> Point {
    Point {
        x: ((2 * (t.0.x + t.1.x + t.2.x) + 3) / 6) as u8,
        y: ((2 * (t.0.y + t.1.y + t.2.y) + 3) / 6) as u8,
    }
}

impl Centroid for Triangle {
    open spec fn centroid_defined(&self) -> bool {
        true
    }

    open spec fn centroid_spec(&self) -> Point {
        tri_centroid(*self)
    }

    fn centroid(&self) -> (r: Point) {
        let x_sum: u16 = self.0.x as u16 + self.1.x as u16 + self.2.x as u16;
        let y_sum: u16 = self.0.y as u16 + self.1.y as u16 + self.2.y as u16;
        Point::new(((2 * x_sum + 3) / 6) as u8, ((2 * y_sum + 3) / 6) as u8)
    }
}

impl Within for Triangle {
    open spec fn within_spec(&self, p: Point) -> bool {
        tri_contains(*self, p)
    }

    /// Tests membership with a cheap bounding-box rejection before the
    /// exact area-decomposition test.
    fn within(&self, p: &Point) -> (r: bool) {
        let bb = self.bbox();
        if !bb.within(p) {
            return false;
        }
        let area_abc = area2(&self.0, &self.1, &self.2);
        let area_pbc = area2(p, &self.1, &self.2);
        let area_apc = area2(&self.0, p, &self.2);
        let area_abp = area2(&self.0, &self.1, p);
        area_abc == area_pbc + area_apc + area_abp
    }
}

impl PointsInside for Triangle {
    /// Enumerates the grid points of the bounding box and keeps those
    /// within the triangle, in lexicographic order.
    fn points_inside(&self) -> (r: Vec<Point>)
        ensures
            r@ == rect_grid(self.bbox_spec()).filter(|q: Point| self.within_spec(q)),
    {
        let bb = self.bbox();
        let candidates = bb.points_inside();
        let points = filter_within(self, &candidates);
        proof {
            lemma_grid_filter_points(self, tri_bbox(*self));
        }
        points
    }
}

} // verus!

//! The circle primitive: a center point and an unsigned radius.

use vstd::prelude::*;

use crate::point::Point;
use crate::point::clamp_u8;
use crate::point::dist_sq;
use crate::point::distance_squared;
use crate::rectangle::Rectangle;
use crate::rectangle::rect_contains;
use crate::rectangle::rect_grid;
use crate::rectangle::rect_wf;
use crate::traits::BoundingBox;
use crate::traits::Centroid;
use crate::traits::PointsInside;
use crate::traits::Within;
use crate::traits::filter_within;
use crate::traits::lemma_grid_filter_points;

verus! {

/// A circle given by its center and radius.
///
/// The radius is unsigned by construction, so `radius >= 0` always
/// holds; a radius of `0` degenerates the circle to its center point.
#[derive(Clone, Copy, Debug, PartialEq, Eq, Hash, Structural)]
pub struct Circle {
    pub center: Point,
    pub radius: u8,
}

impl Circle {
    /// Builds the circle with the given center and radius.
    pub fn new(center: Point, radius: u8) -> (r: Circle)
        ensures
            r == (Circle { center, radius }),
    {
        Circle { center, radius }
    }

    /// The center of the circle.
    pub fn center(&self) -> (r: &Point)
        ensures
            r == self.center,
    {
        &self.center
    }

    /// The radius of the circle.
    pub fn radius(&self) -> (r: &u8)
        ensures
            r == self.radius,
    {
        &self.radius
    }
}

/// Boundary-inclusive membership of a point in a circle: exact point
/// equality for a zero radius, otherwise the squared distance to the
/// center is at most the squared radius.
pub open spec fn circle_contains(c: Circle, p: Point) -> bool {
    if c.radius == 0 {
        p == c.center
    } else {
        dist_sq(c.center, p) <= c.radius * c.radius
    }
}

/// The bounding box of a circle: center plus/minus radius on each axis,
/// clipped to the grid bounds. A circle near the grid edge therefore has
/// a clipped box, not a translated one.
pub open spec fn circle_bbox(c: Circle) -> Rectangle {
    Rectangle {
        min: Point {
            x: clamp_u8(c.center.x - c.radius),
            y: clamp_u8(c.center.y - c.radius),
        },
        max: Point {
            x: clamp_u8(c.center.x + c.radius),
            y: clamp_u8(c.center.y + c.radius),
        },
    }
}

/// Every point within a circle lies within its bounding box.
pub proof fn lemma_circle_within_in_bbox(c: Circle, p: Point)
    ensures
        circle_contains(c, p) ==> rect_contains(circle_bbox(c), p),
        rect_wf(circle_bbox(c)),
{
    if c.radius > 0 && circle_contains(c, p) {
        let dx = if c.center.x >= p.x { c.center.x - p.x } else { p.x - c.center.x };
        let dy = if c.center.y >= p.y { c.center.y - p.y } else { p.y - c.center.y };
        assert(dx <= c.radius && dy <= c.radius) by (nonlinear_arith)
            requires
                dx * dx + dy * dy <= c.radius * c.radius,
                dx >= 0 && dy >= 0 && c.radius >= 0,
        ;
    }
}

impl BoundingBox for Circle {
    open spec fn bbox_spec(&self) -> Rectangle {
        circle_bbox(*self)
    }

    /// Computes center plus/minus radius per axis on a widened signed
    /// integer, then clamps the extents back onto the grid.
    fn bbox(&self) -> (r: Rectangle) {
        let radius = self.radius as i16;
        let cx = self.center.x as i16;
        let cy = self.center.y as i16;
        let min_x = cx - radius;
        let min_y = cy - radius;
        let max_x = cx + radius;
        let max_y = cy + radius;
        Rectangle::new_unchecked(
            Point::new(
                if min_x < 0 { 0 } else { min_x as u8 },
                if min_y < 0 { 0 } else { min_y as u8 },
            ),
            Point::new(
                if max_x > 255 { 255 } else { max_x as u8 },
                if max_y > 255 { 255 } else { max_y as u8 },
            ),
        )
    }
}

impl Centroid for Circle {
    open spec fn centroid_defined(&self) -> bool {
        true
    }

    /// The centroid of a circle is its stored center, exactly.
    open spec fn centroid_spec(&self) -> Point {
        self.center
    }

    fn centroid(&self) -> (r: Point) {
        self.center
    }
}

impl Within for Circle {
    open spec fn within_spec(&self, p: Point) -> bool {
        circle_contains(*self, p)
    }

    fn within(&self, p: &Point) -> (r: bool) {
        if self.radius == 0 {
            return *p == self.center;
        }
        assert((self.radius as u32) * (self.radius as u32) <= 65025) by (nonlinear_arith)
            requires
                self.radius <= 255,
        ;
        let rr: u32 = (self.radius as u32) * (self.radius as u32);
        distance_squared(&self.center, p) <= rr
    }
}

impl PointsInside for Circle {
    /// Enumerates the grid points of the bounding box and keeps those
    /// within the circle, in lexicographic order.
    fn points_inside(&self) -> (r: Vec<Point>)
        ensures
            r@ == rect_grid(self.bbox_spec()).filter(|q: Point| self.within_spec(q)),
    {
        let bb = self.bbox();
        let candidates = bb.points_inside();
        let points = filter_within(self, &candidates);
        proof {
            assert forall|p: Point| self.within_spec(p) implies rect_contains(
                circle_bbox(*self),
                p,
            ) by {
                lemma_circle_within_in_bbox(*self, p);
            }
            lemma_grid_filter_points(self, circle_bbox(*self));
        }
        points
    }
}

} // verus!

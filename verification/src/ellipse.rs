//! The axis-aligned ellipse primitive: a center point and two
//! independent semi-axis lengths.

use vstd::prelude::*;

use crate::point::Point;
use crate::point::clamp_u8;
use crate::point::abs_diff;
use crate::rectangle::Rectangle;
use crate::rectangle::rect_contains;
use crate::rectangle::rect_grid;
use crate::rectangle::rect_wf;
use crate::traits::BoundingBox;
use crate::traits::Centroid;
use crate::traits::PointsInside;
use crate::traits::Within;
use crate::traits::filter_within;
use crate::traits::lemma_grid_filter_points;

verus! {

/// An axis-aligned ellipse given by its center and its two semi-axis
/// lengths `(width, height)`.
///
/// No ordering between the two radii is required; equal radii make a
/// circle, and a zero radius degenerates the ellipse to its center
/// point.
#[derive(Clone, Copy, Debug, PartialEq, Eq, Hash)]
pub struct Ellipse {
    pub center: Point,
    pub radius: (u8, u8),
}

impl Ellipse {
    /// Builds the ellipse with the given center and semi-axis pair.
    pub fn new(center: Point, radius: (u8, u8)) -> (r: Ellipse)
        ensures
            r == (Ellipse { center, radius }),
    {
        Ellipse { center, radius }
    }

    /// The semi-axis along the `x` direction.
    pub fn width(&self) -> (r: &u8)
        ensures
            r == self.radius.0,
    {
        &self.radius.0
    }

    /// The semi-axis along the `y` direction.
    pub fn height(&self) -> (r: &u8)
        ensures
            r == self.radius.1,
    {
        &self.radius.1
    }
}

/// Boundary-inclusive membership of a point in an ellipse: exact point
/// equality when either axis is zero, otherwise the implicit ellipse
/// inequality `(dx/rx)^2 + (dy/ry)^2 <= 1`, cross-multiplied into the
/// equivalent integer form `dx^2*ry^2 + dy^2*rx^2 <= rx^2*ry^2`.
pub open spec fn ellipse_contains(e: Ellipse, p: Point) -> bool {
    if e.radius.0 == 0 || e.radius.1 == 0 {
        p == e.center
    } else {
        let dx = abs_diff(p.x, e.center.x);
        let dy = abs_diff(p.y, e.center.y);
        let rx = e.radius.0 as int;
        let ry = e.radius.1 as int;
        dx * dx * ry * ry + dy * dy * rx * rx <= rx * rx * ry * ry
    }
}

/// The bounding box of an ellipse: `center - radius` per axis on the low
/// side, and one extra unit past `center + radius` on the high side so
/// the rasterized boundary is contained; both corners are clipped to the
/// grid bounds.
pub open spec fn ellipse_bbox(e: Ellipse) -> Rectangle {
    Rectangle {
        min: Point {
            x: clamp_u8(e.center.x - e.radius.0),
            y: clamp_u8(e.center.y - e.radius.1),
        },
        max: Point {
            x: clamp_u8(e.center.x + e.radius.0 + 1),
            y: clamp_u8(e.center.y + e.radius.1 + 1),
        },
    }
}

/// Every point within an ellipse lies within its bounding box.
pub proof fn lemma_ellipse_within_in_bbox(e: Ellipse, p: Point)
    ensures
        ellipse_contains(e, p) ==> rect_contains(ellipse_bbox(e), p),
        rect_wf(ellipse_bbox(e)),
{
    if e.radius.0 > 0 && e.radius.1 > 0 && ellipse_contains(e, p) {
        let dx = abs_diff(p.x, e.center.x);
        let dy = abs_diff(p.y, e.center.y);
        let rx = e.radius.0 as int;
        let ry = e.radius.1 as int;
        assert(dx <= rx && dy <= ry) by (nonlinear_arith)
            requires
                dx * dx * ry * ry + dy * dy * rx * rx <= rx * rx * ry * ry,
                dx >= 0 && dy >= 0 && rx >= 1 && ry >= 1,
        ;
    }
}

impl BoundingBox for Ellipse {
    open spec fn bbox_spec(&self) -> Rectangle {
        ellipse_bbox(*self)
    }

    fn bbox(&self) -> (r: Rectangle) {
        let rx = self.radius.0 as u16;
        let ry = self.radius.1 as u16;
        let cx = self.center.x as u16;
        let cy = self.center.y as u16;
        let min_x = if cx >= rx { cx - rx } else { 0 };
        let min_y = if cy >= ry { cy - ry } else { 0 };
        let max_x = if cx + rx + 1 > 255 { 255 } else { cx + rx + 1 };
        let max_y = if cy + ry + 1 > 255 { 255 } else { cy + ry + 1 };
        Rectangle::new_unchecked(
            Point::new(min_x as u8, min_y as u8),
            Point::new(max_x as u8, max_y as u8),
        )
    }
}

impl Centroid for Ellipse {
    open spec fn centroid_defined(&self) -> bool {
        true
    }

    /// The centroid of an ellipse is its stored center, exactly.
    open spec fn centroid_spec(&self) -> Point {
        self.center
    }

    fn centroid(&self) -> (r: Point) {
        self.center
    }
}

impl Within for Ellipse {
    open spec fn within_spec(&self, p: Point) -> bool {
        ellipse_contains(*self, p)
    }

    /// Tests membership with a cheap bounding-box rejection before
    /// evaluating the implicit ellipse inequality.
    fn within(&self, p: &Point) -> (r: bool) {
        if self.radius.0 == 0 || self.radius.1 == 0 {
            return *p == self.center;
        }
        let bb = self.bbox();
        if !bb.within(p) {
            proof {
                lemma_ellipse_within_in_bbox(*self, *p);
            }
            return false;
        }
        let dx: u64 = if p.x >= self.center.x {
            (p.x - self.center.x) as u64
        } else {
            (self.center.x - p.x) as u64
        };
        let dy: u64 = if p.y >= self.center.y {
            (p.y - self.center.y) as u64
        } else {
            (self.center.y - p.y) as u64
        };
        let rx: u64 = self.radius.0 as u64;
        let ry: u64 = self.radius.1 as u64;
        assert(dx * dx <= 65025 && dx * dx * ry <= 16581375 && dx * dx * ry * ry <= 0xffff_ffff
            && dy * dy <= 65025 && dy * dy * rx <= 16581375 && dy * dy * rx * rx <= 0xffff_ffff
            && rx * rx <= 65025 && rx * rx * ry <= 16581375 && rx * rx * ry * ry
            <= 0xffff_ffff) by (nonlinear_arith)
            requires
                dx <= 255 && dy <= 255 && rx <= 255 && ry <= 255,
        ;
        dx * dx * ry * ry + dy * dy * rx * rx <= rx * rx * ry * ry
    }
}

impl PointsInside for Ellipse {
    /// Enumerates the grid points of the bounding box and keeps those
    /// within the ellipse, in lexicographic order.
    fn points_inside(&self) -> (r: Vec<Point>)
        ensures
            r@ == rect_grid(self.bbox_spec()).filter(|q: Point| self.within_spec(q)),
    {
        let bb = self.bbox();
        let candidates = bb.points_inside();
        let points = filter_within(self, &candidates);
        proof {
            assert forall|p: Point| self.within_spec(p) implies rect_contains(
                ellipse_bbox(*self),
                p,
            ) by {
                lemma_ellipse_within_in_bbox(*self, p);
            }
            lemma_grid_filter_points(self, ellipse_bbox(*self));
        }
        points
    }
}

} // verus!

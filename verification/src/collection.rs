//! An ordered sequence of shapes with aggregate semantics: membership is
//! the union over the members, the bounding box is the union of the
//! members' boxes, the centroid is the mean of the members' centroids,
//! and the covered grid points are the deduplicated union of the
//! members' points.

use vstd::prelude::*;

use crate::point::Point;
use crate::rectangle::Rectangle;
use crate::shape::Shape;
use crate::shape::collection_bbox;
use crate::shape::collection_centroid;
use crate::shape::collection_centroid_defined;
use crate::shape::collection_centroid_sum;
use crate::shape::collection_corners;
use crate::shape::collection_within;
use crate::shape::shape_centroid;
use crate::shape::shape_centroid_defined;
use crate::shape::shape_within;
use crate::traits::BoundingBox;
use crate::traits::Centroid;
use crate::traits::PointsInside;
use crate::traits::Within;
use crate::traits::lemma_push_contains;
use crate::traits::lemma_push_no_duplicates;

verus! {

/// A heterogeneous collection of shapes.
///
/// The insertion order of the members is preserved, but no aggregate
/// operation depends on it: each capability is an order-independent
/// union, minimum or mean over the members.
#[derive(Debug, PartialEq, Eq, Hash, Default)]
pub struct ShapeCollection {
    pub shapes: Vec<Shape>,
}

impl ShapeCollection {
    /// Builds the collection holding the given shapes, in order.
    pub fn new(geometry: Vec<Shape>) -> (r: ShapeCollection)
        ensures
            r == (ShapeCollection { shapes: geometry }),
    {
        ShapeCollection { shapes: geometry }
    }

    /// The member shapes, in insertion order.
    pub fn shapes(&self) -> (r: &Vec<Shape>)
        ensures
            r == self.shapes,
    {
        &self.shapes
    }

    /// Tests the members one by one, reporting the first hit.
    #[verifier::loop_isolation(false)]
    pub(crate) fn within_members(&self, p: &Point) -> (r: bool)
        ensures
            r == collection_within(*self, *p),
        decreases *self,
    {
        let mut i: usize = 0;
        while i < self.shapes.len()
            invariant
                i <= self.shapes@.len(),
                forall|j: int| 0 <= j < i ==> !shape_within(self.shapes@[j], *p),
            decreases self.shapes@.len() - i,
        {
            if self.shapes[i].within_dispatch(p) {
                return true;
            }
            i = i + 1;
        }
        false
    }

    /// Folds the members' bounding boxes into their componentwise union.
    #[verifier::loop_isolation(false)]
    pub(crate) fn bbox_members(&self) -> (r: Rectangle)
        ensures
            r == collection_bbox(*self),
        decreases *self,
    {
        let mut min_x: u8 = 255;
        let mut min_y: u8 = 255;
        let mut max_x: u8 = 0;
        let mut max_y: u8 = 0;
        let mut i: usize = 0;
        while i < self.shapes.len()
            invariant
                i <= self.shapes@.len(),
                collection_corners(self.shapes@.take(i as int)) == (
                    Point { x: min_x, y: min_y },
                    Point { x: max_x, y: max_y },
                ),
            decreases self.shapes@.len() - i,
        {
            let bb = self.shapes[i].bbox_dispatch();
            proof {
                assert(self.shapes@.take(i + 1).drop_last() =~= self.shapes@.take(i as int));
                assert(self.shapes@.take(i + 1).last() == self.shapes@[i as int]);
            }
            if bb.min.x < min_x {
                min_x = bb.min.x;
            }
            if bb.min.y < min_y {
                min_y = bb.min.y;
            }
            if bb.max.x > max_x {
                max_x = bb.max.x;
            }
            if bb.max.y > max_y {
                max_y = bb.max.y;
            }
            i = i + 1;
        }
        proof {
            assert(self.shapes@.take(self.shapes@.len() as int) =~= self.shapes@);
        }
        Rectangle::new(Point::new(min_x, min_y), Point::new(max_x, max_y))
    }

    /// Sums the members' centroids and divides by the member count,
    /// truncating each coordinate onto the grid.
    #[verifier::loop_isolation(false)]
    pub(crate) fn centroid_members(&self) -> (r: Point)
        requires
            collection_centroid_defined(*self),
        ensures
            r == collection_centroid(*self),
        decreases *self,
    {
        let mut sum_x: u128 = 0;
        let mut sum_y: u128 = 0;
        let mut i: usize = 0;
        while i < self.shapes.len()
            invariant
                i <= self.shapes@.len(),
                (sum_x as int, sum_y as int) == collection_centroid_sum(
                    self.shapes@.take(i as int),
                ),
                sum_x <= 255 * (i as int),
                sum_y <= 255 * (i as int),
            decreases self.shapes@.len() - i,
        {
            let c = self.shapes[i].centroid_dispatch();
            proof {
                assert(self.shapes@.take(i + 1).drop_last() =~= self.shapes@.take(i as int));
                assert(self.shapes@.take(i + 1).last() == self.shapes@[i as int]);
            }
            sum_x = sum_x + c.x as u128;
            sum_y = sum_y + c.y as u128;
            i = i + 1;
        }
        proof {
            assert(self.shapes@.take(self.shapes@.len() as int) =~= self.shapes@);
        }
        let n = self.shapes.len() as u128;
        let qx = sum_x / n;
        let qy = sum_y / n;
        assert(qx <= 255 && qy <= 255) by (nonlinear_arith)
            requires
                n >= 1,
                sum_x <= 255 * n,
                sum_y <= 255 * n,
                qx == sum_x / n,
                qy == sum_y / n,
        ;
        Point::new(qx as u8, qy as u8)
    }

    /// Collects the members' grid points, skipping points already seen,
    /// so overlapping members do not yield duplicates.
    #[verifier::loop_isolation(false)]
    pub(crate) fn points_members(&self) -> (r: Vec<Point>)
        ensures
            r@.no_duplicates(),
            forall|p: Point| #[trigger] r@.contains(p) <==> collection_within(*self, p),
        decreases *self,
    {
        let mut out: Vec<Point> = Vec::new();
        let mut i: usize = 0;
        while i < self.shapes.len()
            invariant
                i <= self.shapes@.len(),
                out@.no_duplicates(),
                forall|p: Point| #[trigger] out@.contains(p) <==> exists|j: int|
                    0 <= j < i && shape_within(self.shapes@[j], p),
            decreases self.shapes@.len() - i,
        {
            let pts = self.shapes[i].points_dispatch();
            let mut k: usize = 0;
            while k < pts.len()
                invariant
                    k <= pts@.len(),
                    out@.no_duplicates(),
                    forall|p: Point| #[trigger] out@.contains(p) <==> (exists|j: int|
                        0 <= j < i && shape_within(self.shapes@[j], p)) || pts@.take(
                        k as int,
                    ).contains(p),
                decreases pts@.len() - k,
            {
                let q = pts[k];
                proof {
                    assert(pts@.take(k + 1) =~= pts@.take(k as int).push(pts@[k as int]));
                    lemma_push_contains(pts@.take(k as int), pts@[k as int]);
                }
                if !contains_point(&out, &q) {
                    let ghost seen = out@;
                    out.push(q);
                    proof {
                        lemma_push_contains(seen, q);
                        lemma_push_no_duplicates(seen, q);
                    }
                }
                k = k + 1;
            }
            proof {
                assert(pts@.take(pts@.len() as int) =~= pts@);
            }
            i = i + 1;
        }
        out
    }
}

/// Reports whether the vector already holds the given point.
fn contains_point(v: &Vec<Point>, p: &Point) -> (r: bool)
    ensures
        r == v@.contains(*p),
{
    let mut i: usize = 0;
    while i < v.len()
        invariant
            i <= v@.len(),
            forall|j: int| 0 <= j < i ==> v@[j] != *p,
        decreases v@.len() - i,
    {
        if v[i] == *p {
            return true;
        }
        i = i + 1;
    }
    false
}

impl Clone for ShapeCollection {
    /// Clones the collection member by member. Nothing is claimed of the
    /// result; verified code never clones a collection.
    #[verifier::loop_isolation(false)]
    fn clone(&self) -> Self
        decreases *self,
    {
        let mut shapes: Vec<Shape> = Vec::new();
        let mut i: usize = 0;
        while i < self.shapes.len()
            invariant
                i <= self.shapes@.len(),
            decreases self.shapes@.len() - i,
        {
            shapes.push(self.shapes[i].clone());
            i = i + 1;
        }
        ShapeCollection { shapes }
    }
}

impl Within for ShapeCollection {
    /// A point is within a collection exactly when it is within one of
    /// the members.
    open spec fn within_spec(&self, p: Point) -> bool {
        collection_within(*self, p)
    }

    fn within(&self, p: &Point) -> (r: bool) {
        self.within_members(p)
    }
}

impl BoundingBox for ShapeCollection {
    /// The componentwise union of the members' bounding boxes. An empty
    /// collection starts from inverted sentinel corners, which normalize
    /// to the whole grid.
    open spec fn bbox_spec(&self) -> Rectangle {
        collection_bbox(*self)
    }

    fn bbox(&self) -> (r: Rectangle) {
        self.bbox_members()
    }
}

impl Centroid for ShapeCollection {
    /// The centroid of a collection is defined only when it has members
    /// (and, recursively, every nested collection does too).
    open spec fn centroid_defined(&self) -> bool {
        collection_centroid_defined(*self)
    }

    open spec fn centroid_spec(&self) -> Point {
        collection_centroid(*self)
    }

    fn centroid(&self) -> (r: Point) {
        self.centroid_members()
    }
}

impl PointsInside for ShapeCollection {
    /// The deduplicated union of the members' grid points. Unlike the
    /// single-shape enumerations, the order of the result is not
    /// specified.
    fn points_inside(&self) -> (r: Vec<Point>) {
        self.points_members()
    }
}

} // verus!

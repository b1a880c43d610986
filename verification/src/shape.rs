//! The closed sum type over all shape primitives, dispatching every
//! capability to the active variant, together with the recursive
//! specification functions that give collections their aggregate
//! meaning.

use vstd::prelude::*;

use crate::circle::Circle;
use crate::circle::circle_bbox;
use crate::circle::circle_contains;
use crate::circle::lemma_circle_within_in_bbox;
use crate::collection::ShapeCollection;
use crate::ellipse::Ellipse;
use crate::ellipse::ellipse_bbox;
use crate::ellipse::ellipse_contains;
use crate::ellipse::lemma_ellipse_within_in_bbox;
use crate::point::Point;
use crate::rectangle::Rectangle;
use crate::rectangle::rect_centroid;
use crate::rectangle::rect_contains;
use crate::rectangle::rect_new_spec;
use crate::triangle::Triangle;
use crate::triangle::tri_bbox;
use crate::triangle::tri_centroid;
use crate::triangle::tri_contains;
use crate::traits::BoundingBox;
use crate::traits::Centroid;
use crate::traits::PointsInside;
use crate::traits::Within;

verus! {

/// A closed sum type over the shape primitives and collections of them.
///
/// Every capability is an exhaustive match sending control to the active
/// variant's implementation; the variant set is fixed, so adding one is
/// a compile-time-checked change at every dispatch site.
#[derive(Debug, PartialEq, Eq, Hash)]
pub enum Shape {
    Rectangle(Rectangle),
    Circle(Circle),
    Ellipse(Ellipse),
    Triangle(Triangle),
    Collection(ShapeCollection),
}

/// Whether a point is within a collection: within any of its members.
pub open spec fn collection_within(c: ShapeCollection, p: Point) -> bool
    decreases c,
{
    exists|i: int| 0 <= i < c.shapes@.len() && shape_within(c.shapes@[i], p)
}

/// Whether a point is within a shape, dispatched over the variants.
pub open spec fn shape_within(s: Shape, p: Point) -> bool
    decreases s,
{
    match s {
        Shape::Rectangle(r) => rect_contains(r, p),
        Shape::Circle(c) => circle_contains(c, p),
        Shape::Ellipse(e) => ellipse_contains(e, p),
        Shape::Triangle(t) => tri_contains(t, p),
        Shape::Collection(c) => collection_within(c, p),
    }
}

/// The folded corner pair of a sequence of shapes: the componentwise
/// minimum of the members' bounding-box minima and maximum of their
/// maxima, starting from the inverted sentinel corners
/// `((255, 255), (0, 0))`.
pub open spec fn collection_corners(q: Seq<Shape>) -> (Point, Point)
    decreases q,
{
    if q.len() == 0 {
        (Point { x: 255, y: 255 }, Point { x: 0, y: 0 })
    } else {
        let prev = collection_corners(q.drop_last());
        let bb = shape_bbox(q.last());
        (
            Point {
                x: if bb.min.x < prev.0.x { bb.min.x } else { prev.0.x },
                y: if bb.min.y < prev.0.y { bb.min.y } else { prev.0.y },
            },
            Point {
                x: if bb.max.x > prev.1.x { bb.max.x } else { prev.1.x },
                y: if bb.max.y > prev.1.y { bb.max.y } else { prev.1.y },
            },
        )
    }
}

/// The bounding box of a collection: the folded corners, normalized.
/// For an empty collection the inverted sentinels normalize to the whole
/// grid.
pub open spec fn collection_bbox(c: ShapeCollection) -> Rectangle
    decreases c,
{
    rect_new_spec(collection_corners(c.shapes@).0, collection_corners(c.shapes@).1)
}

/// The bounding box of a shape, dispatched over the variants.
pub open spec fn shape_bbox(s: Shape) -> Rectangle
    decreases s,
{
    match s {
        Shape::Rectangle(r) => r,
        Shape::Circle(c) => circle_bbox(c),
        Shape::Ellipse(e) => ellipse_bbox(e),
        Shape::Triangle(t) => tri_bbox(t),
        Shape::Collection(c) => collection_bbox(c),
    }
}

/// Whether a collection's centroid is defined: it must have members, and
/// every nested collection must too.
pub open spec fn collection_centroid_defined(c: ShapeCollection) -> bool
    decreases c,
{
    c.shapes@.len() > 0 && (forall|i: int|
        0 <= i < c.shapes@.len() ==> shape_centroid_defined(#[trigger] c.shapes@[i]))
}

/// Whether a shape's centroid is defined, dispatched over the variants.
pub open spec fn shape_centroid_defined(s: Shape) -> bool
    decreases s,
{
    match s {
        Shape::Collection(c) => collection_centroid_defined(c),
        _ => true,
    }
}

/// The componentwise sum of the centroids of a sequence of shapes.
pub open spec fn collection_centroid_sum(q: Seq<Shape>) -> (int, int)
    decreases q,
{
    if q.len() == 0 {
        (0, 0)
    } else {
        let prev = collection_centroid_sum(q.drop_last());
        let c = shape_centroid(q.last());
        (prev.0 + c.x, prev.1 + c.y)
    }
}

/// The centroid of a collection: the arithmetic mean of the members'
/// centroids, each coordinate truncated onto the grid.
pub open spec fn collection_centroid(c: ShapeCollection) -> Point
    decreases c,
{
    Point {
        x: (collection_centroid_sum(c.shapes@).0 / c.shapes@.len() as int) as u8,
        y: (collection_centroid_sum(c.shapes@).1 / c.shapes@.len() as int) as u8,
    }
}

/// The centroid of a shape, dispatched over the variants.
pub open spec fn shape_centroid(s: Shape) -> Point
    decreases s,
{
    match s {
        Shape::Rectangle(r) => rect_centroid(r),
        Shape::Circle(c) => c.center,
        Shape::Ellipse(e) => e.center,
        Shape::Triangle(t) => tri_centroid(t),
        Shape::Collection(c) => collection_centroid(c),
    }
}

impl Shape {
    /// Dispatches the membership test to the active variant.
    pub(crate) fn within_dispatch(&self, p: &Point) -> (r: bool)
        ensures
            r == shape_within(*self, *p),
        decreases *self,
    {
        match self {
            Shape::Rectangle(x) => x.within(p),
            Shape::Circle(x) => x.within(p),
            Shape::Ellipse(x) => x.within(p),
            Shape::Triangle(x) => x.within(p),
            Shape::Collection(c) => c.within_members(p),
        }
    }

    /// Dispatches the bounding-box computation to the active variant.
    pub(crate) fn bbox_dispatch(&self) -> (r: Rectangle)
        ensures
            r == shape_bbox(*self),
        decreases *self,
    {
        match self {
            Shape::Rectangle(x) => x.bbox(),
            Shape::Circle(x) => x.bbox(),
            Shape::Ellipse(x) => x.bbox(),
            Shape::Triangle(x) => x.bbox(),
            Shape::Collection(c) => c.bbox_members(),
        }
    }

    /// Dispatches the centroid computation to the active variant.
    pub(crate) fn centroid_dispatch(&self) -> (r: Point)
        requires
            shape_centroid_defined(*self),
        ensures
            r == shape_centroid(*self),
        decreases *self,
    {
        match self {
            Shape::Rectangle(x) => x.centroid(),
            Shape::Circle(x) => x.centroid(),
            Shape::Ellipse(x) => x.centroid(),
            Shape::Triangle(x) => x.centroid(),
            Shape::Collection(c) => c.centroid_members(),
        }
    }

    /// Dispatches the grid-point enumeration to the active variant.
    pub(crate) fn points_dispatch(&self) -> (r: Vec<Point>)
        ensures
            r@.no_duplicates(),
            forall|p: Point| #[trigger] r@.contains(p) <==> shape_within(*self, p),
        decreases *self,
    {
        match self {
            Shape::Rectangle(x) => x.points_inside(),
            Shape::Circle(x) => x.points_inside(),
            Shape::Ellipse(x) => x.points_inside(),
            Shape::Triangle(x) => x.points_inside(),
            Shape::Collection(c) => c.points_members(),
        }
    }
}

impl Clone for Shape {
    /// Clones the active variant. Nothing is claimed of the result;
    /// verified code never clones a shape.
    fn clone(&self) -> Self
        decreases *self,
    {
        match self {
            Shape::Rectangle(x) => Shape::Rectangle(*x),
            Shape::Circle(x) => Shape::Circle(*x),
            Shape::Ellipse(x) => Shape::Ellipse(*x),
            Shape::Triangle(x) => Shape::Triangle(*x),
            Shape::Collection(c) => Shape::Collection(c.clone()),
        }
    }
}

impl Within for Shape {
    open spec fn within_spec(&self, p: Point) -> bool {
        shape_within(*self, p)
    }

    fn within(&self, p: &Point) -> (r: bool) {
        self.within_dispatch(p)
    }
}

impl BoundingBox for Shape {
    open spec fn bbox_spec(&self) -> Rectangle {
        shape_bbox(*self)
    }

    fn bbox(&self) -> (r: Rectangle) {
        self.bbox_dispatch()
    }
}

impl Centroid for Shape {
    open spec fn centroid_defined(&self) -> bool {
        shape_centroid_defined(*self)
    }

    open spec fn centroid_spec(&self) -> Point {
        shape_centroid(*self)
    }

    fn centroid(&self) -> (r: Point) {
        self.centroid_dispatch()
    }
}

impl PointsInside for Shape {
    fn points_inside(&self) -> (r: Vec<Point>) {
        self.points_dispatch()
    }
}

impl From<Rectangle> for Shape {
    fn from(rectangle: Rectangle) -> (r: Shape) {
        Shape::Rectangle(rectangle)
    }
}

impl vstd::std_specs::convert::FromSpecImpl<Rectangle> for Shape {
    open spec fn obeys_from_spec() -> bool {
        true
    }

    open spec fn from_spec(rectangle: Rectangle) -> Shape {
        Shape::Rectangle(rectangle)
    }
}

impl From<Circle> for Shape {
    fn from(circle: Circle) -> (r: Shape) {
        Shape::Circle(circle)
    }
}

impl vstd::std_specs::convert::FromSpecImpl<Circle> for Shape {
    open spec fn obeys_from_spec() -> bool {
        true
    }

    open spec fn from_spec(circle: Circle) -> Shape {
        Shape::Circle(circle)
    }
}

impl From<Ellipse> for Shape {
    fn from(ellipse: Ellipse) -> (r: Shape) {
        Shape::Ellipse(ellipse)
    }
}

impl vstd::std_specs::convert::FromSpecImpl<Ellipse> for Shape {
    open spec fn obeys_from_spec() -> bool {
        true
    }

    open spec fn from_spec(ellipse: Ellipse) -> Shape {
        Shape::Ellipse(ellipse)
    }
}

impl From<Triangle> for Shape {
    fn from(triangle: Triangle) -> (r: Shape) {
        Shape::Triangle(triangle)
    }
}

impl vstd::std_specs::convert::FromSpecImpl<Triangle> for Shape {
    open spec fn obeys_from_spec() -> bool {
        true
    }

    open spec fn from_spec(triangle: Triangle) -> Shape {
        Shape::Triangle(triangle)
    }
}

impl From<ShapeCollection> for Shape {
    fn from(collection: ShapeCollection) -> (r: Shape) {
        Shape::Collection(collection)
    }
}

impl vstd::std_specs::convert::FromSpecImpl<ShapeCollection> for Shape {
    open spec fn obeys_from_spec() -> bool {
        true
    }

    open spec fn from_spec(collection: ShapeCollection) -> Shape {
        Shape::Collection(collection)
    }
}

/// The folded corners of a sequence of shapes bound every member's
/// bounding box.
proof fn lemma_collection_corners_bound(q: Seq<Shape>, i: int)
    requires
        0 <= i < q.len(),
    ensures
        collection_corners(q).0.x <= shape_bbox(q[i]).min.x,
        collection_corners(q).0.y <= shape_bbox(q[i]).min.y,
        shape_bbox(q[i]).max.x <= collection_corners(q).1.x,
        shape_bbox(q[i]).max.y <= collection_corners(q).1.y,
    decreases q.len(),
{
    if i < q.len() - 1 {
        lemma_collection_corners_bound(q.drop_last(), i);
    }
}

/// Every point within a shape lies within the shape's bounding box.
pub proof fn lemma_shape_within_in_bbox(s: Shape, p: Point)
    ensures
        shape_within(s, p) ==> rect_contains(shape_bbox(s), p),
    decreases s,
{
    match s {
        Shape::Rectangle(_) => {
        }
        Shape::Circle(c) => {
            lemma_circle_within_in_bbox(c, p);
        }
        Shape::Ellipse(e) => {
            lemma_ellipse_within_in_bbox(e, p);
        }
        Shape::Triangle(_) => {
        }
        Shape::Collection(c) => {
            if collection_within(c, p) {
                let i = choose|i: int|
                    0 <= i < c.shapes@.len() && shape_within(c.shapes@[i], p);
                lemma_shape_within_in_bbox(c.shapes@[i], p);
                lemma_collection_corners_bound(c.shapes@, i);
            }
        }
    }
}

} // verus!

//! The capability traits every shape implements: bounding rectangle,
//! centroid, point membership, and grid-point enumeration.
//!
//! Each trait pairs one executable method with the specification
//! functions that its contract is stated over; every implementation in
//! this crate proves its method against those specifications.

use vstd::prelude::*;

use crate::point::Point;
use crate::rectangle::Rectangle;
use crate::rectangle::lemma_rect_grid;
use crate::rectangle::rect_contains;
use crate::rectangle::rect_grid;

verus! {

/// The smallest axis-aligned rectangle containing a shape's interior and
/// boundary.
pub trait BoundingBox {
    /// The bounding rectangle, as a specification value.
    spec fn bbox_spec(&self) -> Rectangle;

    /// Returns the smallest axis-aligned rectangle such that every point
    /// within the shape lies in it (or on its boundary).
    fn bbox(&self) -> (r: Rectangle)
        ensures
            r == self.bbox_spec(),
    ;
}

/// The representative center point of a shape.
pub trait Centroid {
    /// Whether the centroid is defined for this value.
    ///
    /// It is undefined only for a shape collection with no members (the
    /// mean of zero centroids); every other shape always has one.
    spec fn centroid_defined(&self) -> bool;

    /// The centroid, as a specification value.
    spec fn centroid_spec(&self) -> Point;

    /// Returns the centroid of the shape.
    fn centroid(&self) -> (r: Point)
        requires
            self.centroid_defined(),
        ensures
            r == self.centroid_spec(),
    ;
}

/// Boundary-inclusive point-membership test.
pub trait Within {
    /// Whether the point lies within the shape, as a specification value.
    spec fn within_spec(&self, p: Point) -> bool;

    /// Returns `true` exactly when the point lies within the shape,
    /// boundary included.
    fn within(&self, p: &Point) -> (r: bool)
        ensures
            r == self.within_spec(*p),
    ;
}

/// Enumeration of every grid point a shape covers.
pub trait PointsInside: Within {
    /// Returns the grid points within the shape: each returned point
    /// satisfies the membership predicate, every point satisfying it is
    /// returned, and no point is returned twice.
    fn points_inside(&self) -> (r: Vec<Point>)
        ensures
            r@.no_duplicates(),
            forall|p: Point| #[trigger] r@.contains(p) <==> self.within_spec(p),
    ;
}

/// Membership in a sequence extended by one element: the old members,
/// plus the new element.
pub(crate) proof fn lemma_push_contains<A>(s: Seq<A>, e: A)
    ensures
        forall|x: A| #[trigger] s.push(e).contains(x) <==> s.contains(x) || x == e,
{
    assert forall|x: A| #[trigger] s.push(e).contains(x) implies s.contains(x) || x == e by {
        let i = choose|i: int| 0 <= i < s.push(e).len() && s.push(e)[i] == x;
        if i < s.len() {
            assert(s[i] == x);
        }
    }
    assert forall|x: A| s.contains(x) || x == e implies #[trigger] s.push(e).contains(x) by {
        if s.contains(x) {
            let i = choose|i: int| 0 <= i < s.len() && s[i] == x;
            assert(s.push(e)[i] == x);
        } else {
            assert(s.push(e)[s.len() as int] == x);
        }
    }
}

/// Pushing an element that a duplicate-free sequence does not hold
/// keeps it duplicate-free.
pub(crate) proof fn lemma_push_no_duplicates<A>(s: Seq<A>, e: A)
    requires
        s.no_duplicates(),
        !s.contains(e),
    ensures
        s.push(e).no_duplicates(),
{
    assert forall|i: int, j: int|
        0 <= i < s.push(e).len() && 0 <= j < s.push(e).len() && i != j implies s.push(e)[i]
        != s.push(e)[j] by {
        if i < s.len() && j < s.len() {
        } else if i < s.len() {
            assert(s[i] != e);
        } else {
            assert(s[j] != e);
        }
    }
}

/// Filtering a sequence extended by one element keeps the filtered prefix
/// and appends the new element exactly when it satisfies the predicate.
pub(crate) proof fn lemma_filter_push<A>(s: Seq<A>, pred: spec_fn(A) -> bool, e: A)
    ensures
        pred(e) ==> s.push(e).filter(pred) == s.filter(pred).push(e),
        !pred(e) ==> s.push(e).filter(pred) == s.filter(pred),
{
    reveal_with_fuel(Seq::filter, 2);
    assert(s.push(e).drop_last() =~= s);
    assert(s.push(e).last() == e);
    assert(s.push(e).len() > 0);
}

/// Every element of a filtered sequence occurs in the sequence it was
/// filtered from.
pub(crate) proof fn lemma_filter_subset<A>(s: Seq<A>, pred: spec_fn(A) -> bool)
    ensures
        forall|x: A| #[trigger] s.filter(pred).contains(x) ==> s.contains(x),
    decreases s.len(),
{
    reveal_with_fuel(Seq::filter, 2);
    if s.len() > 0 {
        lemma_filter_subset(s.drop_last(), pred);
        assert forall|x: A| #[trigger] s.filter(pred).contains(x) implies s.contains(x) by {
            if s.drop_last().filter(pred).contains(x) {
                let i = choose|i: int|
                    0 <= i < s.drop_last().len() && s.drop_last()[i] == x;
                assert(s[i] == x);
            } else {
                assert(x == s.last());
            }
        }
    }
}

/// Filtering keeps a duplicate-free sequence duplicate-free.
pub(crate) proof fn lemma_filter_no_duplicates<A>(s: Seq<A>, pred: spec_fn(A) -> bool)
    requires
        s.no_duplicates(),
    ensures
        s.filter(pred).no_duplicates(),
    decreases s.len(),
{
    reveal_with_fuel(Seq::filter, 2);
    if s.len() > 0 {
        let dl = s.drop_last();
        assert(dl.no_duplicates());
        lemma_filter_no_duplicates(dl, pred);
        lemma_filter_subset(dl, pred);
        if pred(s.last()) {
            assert(s.filter(pred) == dl.filter(pred).push(s.last()));
            if dl.filter(pred).contains(s.last()) {
                let i = choose|i: int| 0 <= i < dl.len() && dl[i] == s.last();
                assert(s[i] == s[s.len() - 1]);
            }
            assert forall|i: int, j: int|
                0 <= i < s.filter(pred).len() && 0 <= j < s.filter(pred).len() && i != j
                implies s.filter(pred)[i] != s.filter(pred)[j] by {
                let f = dl.filter(pred);
                if i < f.len() && j < f.len() {
                    assert(f[i] != f[j]);
                }
            }
        }
    }
}

/// Keeps exactly the points of `points` that lie within the shape, in
/// their original order.
pub(crate) fn filter_within<S: Within>(shape: &S, points: &Vec<Point>) -> (r: Vec<Point>)
    ensures
        r@ == points@.filter(|q: Point| shape.within_spec(q)),
{
    let ghost pred = |q: Point| shape.within_spec(q);
    let mut out: Vec<Point> = Vec::new();
    let mut i: usize = 0;
    proof {
        assert(points@.take(0) =~= Seq::<Point>::empty());
        assert(Seq::<Point>::empty().filter(pred) =~= Seq::<Point>::empty());
    }
    while i < points.len()
        invariant
            i <= points@.len(),
            out@ == points@.take(i as int).filter(pred),
            pred == (|q: Point| shape.within_spec(q)),
        decreases points@.len() - i,
    {
        proof {
            assert(points@.take(i + 1) =~= points@.take(i as int).push(points@[i as int]));
            lemma_filter_push(points@.take(i as int), pred, points@[i as int]);
        }
        if shape.within(&points[i]) {
            out.push(points[i]);
        }
        i = i + 1;
    }
    proof {
        assert(points@.take(points@.len() as int) =~= points@);
    }
    out
}

/// The grid points of a bounding rectangle, filtered by a membership
/// predicate that the rectangle covers, hold exactly the points the
/// predicate accepts, each of them once.
pub(crate) proof fn lemma_grid_filter_points<S: Within>(shape: &S, bb: Rectangle)
    requires
        forall|p: Point| shape.within_spec(p) ==> rect_contains(bb, p),
    ensures
        rect_grid(bb).filter(|q: Point| shape.within_spec(q)).no_duplicates(),
        forall|p: Point|
            rect_grid(bb).filter(|q: Point| shape.within_spec(q)).contains(p)
                <==> #[trigger] shape.within_spec(p),
{
    let g = rect_grid(bb);
    let pred = |q: Point| shape.within_spec(q);
    lemma_rect_grid(bb);
    lemma_filter_no_duplicates(g, pred);
    lemma_filter_subset(g, pred);
    assert forall|p: Point| g.filter(pred).contains(p) implies #[trigger] shape.within_spec(p) by {
        let i = choose|i: int| 0 <= i < g.filter(pred).len() && g.filter(pred)[i] == p;
        g.lemma_filter_pred(pred, i);
    }
    assert forall|p: Point| #[trigger] shape.within_spec(p) implies g.filter(pred).contains(p) by {
        assert(rect_contains(bb, p));
        assert(g.contains(p));
        let i = choose|i: int| 0 <= i < g.len() && g[i] == p;
        g.lemma_filter_contains(pred, i);
    }
}

} // verus!

//! A normalized line segment between two grid points.

use vstd::prelude::*;

use crate::point::Point;
use crate::point::lex_le;

verus! {

/// A directed-but-order-independent segment between two points.
///
/// Construction through [`Line::new`] normalizes the endpoints so that
/// `start` precedes `end` in lexicographic point order (`x` first, then
/// `y`); the segments `a -> b` and `b -> a` are therefore equal values.
#[derive(Clone, Copy, Debug, PartialEq, Eq, Hash, Structural)]
pub struct Line {
    pub start: Point,
    pub end: Point,
}

impl Line {
    /// The endpoint-ordering invariant: `start` precedes `end`
    /// lexicographically.
    pub open spec fn wf(self) -> bool {
        lex_le(self.start, self.end)
    }

    /// Builds a line from endpoints that are already in lexicographic
    /// order. No normalization and no validation is performed: callers
    /// that pass unsorted endpoints get a value that breaks the
    /// [`Line::wf`] invariant downstream consumers assume.
    pub fn new_unchecked(start: Point, end: Point) -> (r: Line)
        ensures
            r == (Line { start, end }),
    {
        Line { start, end }
    }

    /// Builds the segment between two arbitrary points, normalizing the
    /// endpoint order.
    pub fn new(a: Point, b: Point) -> (r: Line)
        ensures
            r == spec_line_new(a, b),
            r.wf(),
            r == spec_line_new(b, a),
    {
        if a.x < b.x || (a.x == b.x && a.y < b.y) {
            Line { start: a, end: b }
        } else {
            Line { start: b, end: a }
        }
    }
}

/// The normalized segment between two points: the lexicographically
/// smaller one becomes `start`.
pub open spec fn spec_line_new(a: Point, b: Point) -> Line {
    if lex_le(a, b) {
        Line { start: a, end: b }
    } else {
        Line { start: b, end: a }
    }
}

/// Normalization of a segment is idempotent and order-independent: the
/// constructed line's endpoints are sorted, and swapping the arguments
/// yields the same value.
pub proof fn lemma_line_new_normalizes(a: Point, b: Point)
    ensures
        spec_line_new(a, b).wf(),
        spec_line_new(a, b) == spec_line_new(b, a),
{
}

} // verus!

//! The rectangle value and its merge operator, plus the coordinate pair.

use vstd::prelude::*;

verus! {

/// A coordinate pair, by convention (longitude, latitude).
#[derive(Clone, Copy, Debug, PartialEq, Eq, Structural)]
pub struct Position {
    pub x: i64,
    pub y: i64,
}

/// An axis-aligned bounding rectangle. Every rectangle this crate produces
/// satisfies `xmin <= xmax` and `ymin <= ymax`.
///
/// The merge operator takes plain minima and maxima of the coordinates as
/// given; a geometry that wraps past the antimeridian therefore yields an
/// overly wide rectangle. That limitation is deliberate and left visible.
#[derive(Clone, Copy, Debug, PartialEq, Eq, Structural)]
pub struct Bbox {
    pub xmin: i64,
    pub xmax: i64,
    pub ymin: i64,
    pub ymax: i64,
}

/// Well-formedness of a rectangle: the minima do not exceed the maxima.
pub open spec fn bbox_wf(b: Bbox) -> bool {
    b.xmin <= b.xmax && b.ymin <= b.ymax
}

/// What `Bbox::merge` returns: the componentwise min/max envelope.
pub open spec fn merge_spec(a: Bbox, b: Bbox) -> Bbox {
    Bbox {
        xmin: if a.xmin <= b.xmin { a.xmin } else { b.xmin },
        xmax: if a.xmax >= b.xmax { a.xmax } else { b.xmax },
        ymin: if a.ymin <= b.ymin { a.ymin } else { b.ymin },
        ymax: if a.ymax >= b.ymax { a.ymax } else { b.ymax },
    }
}

/// The degenerate rectangle of a single coordinate pair.
pub open spec fn position_bbox_spec(p: Position) -> Bbox {
    Bbox { xmin: p.x, xmax: p.x, ymin: p.y, ymax: p.y }
}

impl Bbox {
    /// The smallest rectangle enclosing both `self` and `other`.
    pub fn merge(&self, other: &Bbox) -> (r: Bbox)
        ensures
            r == merge_spec(*self, *other),
    {
        Bbox {
            xmin: if self.xmin <= other.xmin { self.xmin } else { other.xmin },
            xmax: if self.xmax >= other.xmax { self.xmax } else { other.xmax },
            ymin: if self.ymin <= other.ymin { self.ymin } else { other.ymin },
            ymax: if self.ymax >= other.ymax { self.ymax } else { other.ymax },
        }
    }
}

impl Position {
    /// The degenerate rectangle whose four bounds are this pair's coordinates.
    pub fn to_bbox(&self) -> (r: Bbox)
        ensures
            r == position_bbox_spec(*self),
    {
        Bbox { xmin: self.x, ymin: self.y, xmax: self.x, ymax: self.y }
    }
}

/// Free-function form of `Position::to_bbox`, handy as a per-element rule.
pub fn position_bbox(p: &Position) -> (r: Bbox)
    ensures
        r == position_bbox_spec(*p),
{
    p.to_bbox()
}

/// Merging is associative.
pub proof fn lemma_merge_assoc(a: Bbox, b: Bbox, c: Bbox)
    ensures
        merge_spec(a, merge_spec(b, c)) == merge_spec(merge_spec(a, b), c),
{
}

/// Merging is commutative.
pub proof fn lemma_merge_comm(a: Bbox, b: Bbox)
    ensures
        merge_spec(a, b) == merge_spec(b, a),
{
}

/// Merging a rectangle with itself gives it back.
pub proof fn lemma_merge_idem(a: Bbox)
    ensures
        merge_spec(a, a) == a,
{
}

/// Merging preserves well-formedness.
pub proof fn lemma_merge_wf(a: Bbox, b: Bbox)
    requires
        bbox_wf(a),
        bbox_wf(b),
    ensures
        bbox_wf(merge_spec(a, b)),
{
}

} // verus!

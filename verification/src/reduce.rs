//! The divide-and-conquer reduction of a sequence to one rectangle.
//!
//! `compute_bbox` folds any non-empty slice into a single rectangle, given a
//! per-element rule; it splits at the midpoint and may evaluate the two
//! halves concurrently. Because merging is associative, the result does not
//! depend on the split point, on the evaluation order, or on whether the two
//! halves ran in parallel; `lemma_reduce_split` is that statement.

use vstd::prelude::*;
use crate::bbox::Bbox;
use crate::bbox::bbox_wf;
use crate::bbox::merge_spec;
use crate::bbox::lemma_merge_assoc;
use crate::bbox::lemma_merge_wf;
use crate::error::BboxError;

verus! {

/// Combine the outcomes of the two halves of a split: the left half's
/// failure wins, then the right half's, else the merged rectangle.
pub open spec fn combine_spec(
    a: Result<Bbox, BboxError>,
    b: Result<Bbox, BboxError>,
) -> Result<Bbox, BboxError> {
    match (a, b) {
        (Err(e), _) => Err(e),
        (Ok(_), Err(e)) => Err(e),
        (Ok(x), Ok(y)) => Ok(merge_spec(x, y)),
    }
}

/// The reduction of a sequence under a per-element rule `m`: the failure of
/// the leftmost failing element, else the merge of all element rectangles.
/// An empty sequence has no rectangle and is a failure.
pub open spec fn reduce_bbox_spec<T>(
    s: Seq<T>,
    m: spec_fn(T) -> Result<Bbox, BboxError>,
) -> Result<Bbox, BboxError>
    decreases s.len(),
{
    if s.len() == 0 {
        Err(BboxError::EmptyGeometry)
    } else if s.len() == 1 {
        m(s[0])
    } else {
        combine_spec(reduce_bbox_spec(s.subrange(0, s.len() - 1), m), m(s[s.len() - 1]))
    }
}

/// Combining is associative, because merging is and because a failure
/// swallows whatever stands to its right.
pub proof fn lemma_combine_assoc(
    a: Result<Bbox, BboxError>,
    b: Result<Bbox, BboxError>,
    c: Result<Bbox, BboxError>,
)
    ensures
        combine_spec(a, combine_spec(b, c)) == combine_spec(combine_spec(a, b), c),
{
    if a is Ok && b is Ok && c is Ok {
        lemma_merge_assoc(a->Ok_0, b->Ok_0, c->Ok_0);
    }
}

/// Splitting anywhere and combining the two halves' reductions gives the
/// reduction of the whole sequence. This is what licenses the midpoint
/// split, and any other split, of the executable reducer.
pub proof fn lemma_reduce_split<T>(
    s: Seq<T>,
    mid: int,
    m: spec_fn(T) -> Result<Bbox, BboxError>,
)
    requires
        0 < mid < s.len(),
    ensures
        reduce_bbox_spec(s, m) == combine_spec(
            reduce_bbox_spec(s.subrange(0, mid), m),
            reduce_bbox_spec(s.subrange(mid, s.len() as int), m),
        ),
    decreases s.len(),
{
    let left = s.subrange(0, mid);
    let right = s.subrange(mid, s.len() as int);
    if mid == s.len() - 1 {
        assert(left =~= s.subrange(0, s.len() - 1));
        assert(right.len() == 1);
        assert(right[0] == s[s.len() - 1]);
    } else {
        let prefix = s.subrange(0, s.len() - 1);
        lemma_reduce_split(prefix, mid, m);
        assert(prefix.subrange(0, mid) =~= left);
        assert(prefix.subrange(mid, prefix.len() as int) =~= right.subrange(
            0,
            right.len() - 1,
        ));
        assert(right[right.len() - 1] == s[s.len() - 1]);
        lemma_combine_assoc(
            reduce_bbox_spec(left, m),
            reduce_bbox_spec(right.subrange(0, right.len() - 1), m),
            m(s[s.len() - 1]),
        );
    }
}

/// A reduction whose per-element rectangles are all well-formed yields a
/// well-formed rectangle whenever it yields one at all.
pub proof fn lemma_reduce_wf<T>(s: Seq<T>, m: spec_fn(T) -> Result<Bbox, BboxError>)
    requires
        forall|i: int| 0 <= i < s.len() && (#[trigger] m(s[i])) is Ok ==> bbox_wf(m(s[i])->Ok_0),
    ensures
        reduce_bbox_spec(s, m) is Ok ==> bbox_wf(reduce_bbox_spec(s, m)->Ok_0),
    decreases s.len(),
{
    if s.len() > 1 {
        let sub = s.subrange(0, s.len() - 1);
        assert forall|i: int| 0 <= i < sub.len() && (#[trigger] m(sub[i])) is Ok implies bbox_wf(
            m(sub[i])->Ok_0,
        ) by {
            assert(sub[i] == s[i]);
        }
        lemma_reduce_wf(sub, m);
        let a = reduce_bbox_spec(sub, m);
        let b = m(s[s.len() - 1]);
        if a is Ok && b is Ok {
            lemma_merge_wf(a->Ok_0, b->Ok_0);
        }
    }
}

/// Relies on `rayon::join`: it always runs both closures, possibly on
/// different worker threads, and returns the pair of their results.
pub assume_specification<A, B, RA, RB>[ rayon::join::<A, B, RA, RB> ](
    oper_a: A,
    oper_b: B,
) -> (r: (RA, RB))
    where
        A: FnOnce() -> RA + Send,
        B: FnOnce() -> RB + Send,
        RA: Send,
        RB: Send,
    requires
        call_requires(oper_a, ()),
        call_requires(oper_b, ()),
    ensures
        call_ensures(oper_a, (), r.0),
        call_ensures(oper_b, (), r.1),
;

/// Combine the outcomes of the two halves of a split.
fn combine(a: Result<Bbox, BboxError>, b: Result<Bbox, BboxError>) -> (r: Result<
    Bbox,
    BboxError,
>)
    ensures
        r == combine_spec(a, b),
{
    match (a, b) {
        (Err(e), _) => Err(e),
        (Ok(_), Err(e)) => Err(e),
        (Ok(x), Ok(y)) => Ok(x.merge(&y)),
    }
}

/// Reduce a slice to one rectangle under the per-element rule `func`, whose
/// outcomes the ghost rule `m` describes. The slice is split at its
/// midpoint and the two halves are evaluated concurrently; an empty slice
/// is a failure, never a rectangle.
pub fn compute_bbox<T: Sync, F: Fn(&T) -> Result<Bbox, BboxError> + Sync>(
    v: &[T],
    func: &F,
    m: Ghost<spec_fn(T) -> Result<Bbox, BboxError>>,
) -> (r: Result<Bbox, BboxError>)
    requires
        forall|i: int| #![trigger v@[i]] 0 <= i < v@.len() ==> call_requires(*func, (&v@[i],)),
        forall|i: int, out: Result<Bbox, BboxError>|
            0 <= i < v@.len() && #[trigger] call_ensures(*func, (&v@[i],), out) ==> out == m@(
                v@[i],
            ),
    ensures
        r == reduce_bbox_spec(v@, m@),
    decreases v@.len(),
{
    if v.len() == 0 {
        Err(BboxError::EmptyGeometry)
    } else if v.len() == 1 {
        func(&v[0])
    } else {
        let mid = v.len() / 2;
        let (left, right) = v.split_at(mid);
        let do_left = (|| -> (out: Result<Bbox, BboxError>)
            ensures
                out == reduce_bbox_spec(left@, m@),
            {
                proof {
                    assert forall|i: int| #![trigger left@[i]] 0 <= i < left@.len() implies left@[i]
                        == v@[i] by {}
                }
                compute_bbox(left, func, m)
            });
        let do_right = (|| -> (out: Result<Bbox, BboxError>)
            ensures
                out == reduce_bbox_spec(right@, m@),
            {
                proof {
                    assert forall|i: int| #![trigger right@[i]] 0 <= i < right@.len() implies right@[i]
                        == v@[i + mid] by {}
                }
                compute_bbox(right, func, m)
            });
        let (left_bbox, right_bbox) = rayon::join(do_left, do_right);
        proof {
            lemma_reduce_split(v@, mid as int, m@);
        }
        combine(left_bbox, right_bbox)
    }
}

} // verus!

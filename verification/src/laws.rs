//! The stated laws of the reduction, each proved once and for all.
//!
//! The merge operator's own laws stand beside it; here stand the laws that
//! relate the reducer and the dispatcher to plain statements: the reduction
//! of coordinate pairs is the linear min/max scan, the result does not
//! depend on the order of the input, holes never widen a polygon's box,
//! empty extents and missing geometries fail, and every rectangle the
//! system produces is well-formed.

use vstd::prelude::*;
use crate::bbox::Bbox;
use crate::bbox::Position;
use crate::bbox::bbox_wf;
use crate::bbox::lemma_merge_wf;
use crate::error::BboxError;
use crate::geometry::Feature;
use crate::geometry::FeatureCollection;
use crate::geometry::GeoJson;
use crate::geometry::Geometry;
use crate::geometry::Value;
use crate::geometry::feature_bbox_spec;
use crate::geometry::feature_collection_bbox_spec;
use crate::geometry::feature_rule;
use crate::geometry::features_bbox_spec;
use crate::geometry::geojson_bbox_spec;
use crate::geometry::geometries_bbox_spec;
use crate::geometry::geometry_bbox_spec;
use crate::geometry::polygon_bbox_spec;
use crate::geometry::polygon_rule;
use crate::geometry::position_rule;
use crate::geometry::positions_bbox_spec;
use crate::geometry::ring_rule;
use crate::geometry::value_bbox_spec;
use crate::reduce::lemma_reduce_wf;
use crate::reduce::reduce_bbox_spec;

verus! {

/// The least x coordinate in a non-empty sequence, by a linear scan.
pub open spec fn min_x(s: Seq<Position>) -> i64
    recommends
        s.len() > 0,
    decreases s.len(),
{
    if s.len() <= 1 {
        s[0].x
    } else {
        let m = min_x(s.subrange(0, s.len() - 1));
        if m <= s[s.len() - 1].x {
            m
        } else {
            s[s.len() - 1].x
        }
    }
}

/// The greatest x coordinate in a non-empty sequence, by a linear scan.
pub open spec fn max_x(s: Seq<Position>) -> i64
    recommends
        s.len() > 0,
    decreases s.len(),
{
    if s.len() <= 1 {
        s[0].x
    } else {
        let m = max_x(s.subrange(0, s.len() - 1));
        if m >= s[s.len() - 1].x {
            m
        } else {
            s[s.len() - 1].x
        }
    }
}

/// The least y coordinate in a non-empty sequence, by a linear scan.
pub open spec fn min_y(s: Seq<Position>) -> i64
    recommends
        s.len() > 0,
    decreases s.len(),
{
    if s.len() <= 1 {
        s[0].y
    } else {
        let m = min_y(s.subrange(0, s.len() - 1));
        if m <= s[s.len() - 1].y {
            m
        } else {
            s[s.len() - 1].y
        }
    }
}

/// The greatest y coordinate in a non-empty sequence, by a linear scan.
pub open spec fn max_y(s: Seq<Position>) -> i64
    recommends
        s.len() > 0,
    decreases s.len(),
{
    if s.len() <= 1 {
        s[0].y
    } else {
        let m = max_y(s.subrange(0, s.len() - 1));
        if m >= s[s.len() - 1].y {
            m
        } else {
            s[s.len() - 1].y
        }
    }
}

/// Reducing a non-empty sequence of coordinate pairs succeeds and equals
/// the rectangle of the four linear scans: the min and max of all x and of
/// all y values. Together with `lemma_reduce_split`, which equates every
/// split of the divide-and-conquer with this same value, the result is
/// independent of split strategy and of parallel or sequential evaluation.
pub proof fn lemma_positions_bbox_is_linear_scan(s: Seq<Position>)
    requires
        s.len() > 0,
    ensures
        positions_bbox_spec(s) == Ok::<Bbox, BboxError>(
            Bbox { xmin: min_x(s), xmax: max_x(s), ymin: min_y(s), ymax: max_y(s) },
        ),
    decreases s.len(),
{
    if s.len() > 1 {
        lemma_positions_bbox_is_linear_scan(s.subrange(0, s.len() - 1));
    }
}

/// Each of the four scans bounds the matching coordinate of every element.
pub proof fn lemma_scan_bounds(s: Seq<Position>)
    requires
        s.len() > 0,
    ensures
        forall|i: int| 0 <= i < s.len() ==> min_x(s) <= #[trigger] s[i].x <= max_x(s),
        forall|i: int| 0 <= i < s.len() ==> min_y(s) <= #[trigger] s[i].y <= max_y(s),
    decreases s.len(),
{
    if s.len() > 1 {
        let sub = s.subrange(0, s.len() - 1);
        lemma_scan_bounds(sub);
        assert forall|i: int| 0 <= i < s.len() implies min_x(s) <= #[trigger] s[i].x
            <= max_x(s) by {
            if i < s.len() - 1 {
                assert(sub[i] == s[i]);
            }
        }
        assert forall|i: int| 0 <= i < s.len() implies min_y(s) <= #[trigger] s[i].y
            <= max_y(s) by {
            if i < s.len() - 1 {
                assert(sub[i] == s[i]);
            }
        }
    }
}

/// The least x coordinate is attained; the returned index attains it.
pub proof fn lemma_min_x_attained(s: Seq<Position>) -> (i: int)
    requires
        s.len() > 0,
    ensures
        0 <= i < s.len(),
        s[i].x == min_x(s),
    decreases s.len(),
{
    if s.len() <= 1 {
        0
    } else {
        let sub = s.subrange(0, s.len() - 1);
        if min_x(sub) <= s[s.len() - 1].x {
            let j = lemma_min_x_attained(sub);
            assert(sub[j] == s[j]);
            j
        } else {
            s.len() - 1
        }
    }
}

/// The greatest x coordinate is attained; the returned index attains it.
pub proof fn lemma_max_x_attained(s: Seq<Position>) -> (i: int)
    requires
        s.len() > 0,
    ensures
        0 <= i < s.len(),
        s[i].x == max_x(s),
    decreases s.len(),
{
    if s.len() <= 1 {
        0
    } else {
        let sub = s.subrange(0, s.len() - 1);
        if max_x(sub) >= s[s.len() - 1].x {
            let j = lemma_max_x_attained(sub);
            assert(sub[j] == s[j]);
            j
        } else {
            s.len() - 1
        }
    }
}

/// The least y coordinate is attained; the returned index attains it.
pub proof fn lemma_min_y_attained(s: Seq<Position>) -> (i: int)
    requires
        s.len() > 0,
    ensures
        0 <= i < s.len(),
        s[i].y == min_y(s),
    decreases s.len(),
{
    if s.len() <= 1 {
        0
    } else {
        let sub = s.subrange(0, s.len() - 1);
        if min_y(sub) <= s[s.len() - 1].y {
            let j = lemma_min_y_attained(sub);
            assert(sub[j] == s[j]);
            j
        } else {
            s.len() - 1
        }
    }
}

/// The greatest y coordinate is attained; the returned index attains it.
pub proof fn lemma_max_y_attained(s: Seq<Position>) -> (i: int)
    requires
        s.len() > 0,
    ensures
        0 <= i < s.len(),
        s[i].y == max_y(s),
    decreases s.len(),
{
    if s.len() <= 1 {
        0
    } else {
        let sub = s.subrange(0, s.len() - 1);
        if max_y(sub) >= s[s.len() - 1].y {
            let j = lemma_max_y_attained(sub);
            assert(sub[j] == s[j]);
            j
        } else {
            s.len() - 1
        }
    }
}

/// A pair that occurs in `s` occurs in `t` whenever the two sequences hold
/// the same pairs with the same multiplicities.
proof fn lemma_perm_contains(s: Seq<Position>, t: Seq<Position>, p: Position)
    requires
        s.to_multiset() == t.to_multiset(),
        s.contains(p),
    ensures
        t.contains(p),
{
    broadcast use vstd::seq_lib::group_to_multiset_ensures;

    assert(s.to_multiset().count(p) > 0);
    assert(t.to_multiset().count(p) > 0);
}

/// Every coordinate attained in `s` occurs in `t` whenever the two hold the
/// same pairs with the same multiplicities; so each of `t`'s scans bounds
/// each of `s`'s.
proof fn lemma_perm_scan_le(s: Seq<Position>, t: Seq<Position>)
    requires
        s.len() > 0,
        t.len() > 0,
        s.to_multiset() == t.to_multiset(),
    ensures
        min_x(t) <= min_x(s),
        max_x(s) <= max_x(t),
        min_y(t) <= min_y(s),
        max_y(s) <= max_y(t),
{
    lemma_scan_bounds(t);
    let i1 = lemma_min_x_attained(s);
    lemma_perm_contains(s, t, s[i1]);
    let j1 = choose|j: int| 0 <= j < t.len() && t[j] == s[i1];
    assert(t[j1].x == min_x(s));
    let i2 = lemma_max_x_attained(s);
    lemma_perm_contains(s, t, s[i2]);
    let j2 = choose|j: int| 0 <= j < t.len() && t[j] == s[i2];
    assert(t[j2].x == max_x(s));
    let i3 = lemma_min_y_attained(s);
    lemma_perm_contains(s, t, s[i3]);
    let j3 = choose|j: int| 0 <= j < t.len() && t[j] == s[i3];
    assert(t[j3].y == min_y(s));
    let i4 = lemma_max_y_attained(s);
    lemma_perm_contains(s, t, s[i4]);
    let j4 = choose|j: int| 0 <= j < t.len() && t[j] == s[i4];
    assert(t[j4].y == max_y(s));
}

/// Order-independence: a sequence of coordinate pairs and any permutation
/// of it reduce to the same rectangle.
pub proof fn lemma_positions_bbox_permutation(s: Seq<Position>, t: Seq<Position>)
    requires
        s.len() > 0,
        s.to_multiset() == t.to_multiset(),
    ensures
        positions_bbox_spec(s) == positions_bbox_spec(t),
{
    broadcast use vstd::seq_lib::group_to_multiset_ensures;

    assert(t.len() == t.to_multiset().len());
    lemma_perm_scan_le(s, t);
    lemma_perm_scan_le(t, s);
    lemma_positions_bbox_is_linear_scan(s);
    lemma_positions_bbox_is_linear_scan(t);
}

/// The polygon rule ignores holes: only ring 0, the exterior, decides the
/// rectangle, however far any later ring extends.
pub proof fn lemma_polygon_ignores_holes(rings: Seq<Vec<Position>>)
    requires
        rings.len() > 0,
    ensures
        polygon_bbox_spec(rings) == positions_bbox_spec(rings[0]@),
{
}

/// Reducing an empty sequence fails with the empty-extent error.
pub proof fn lemma_empty_reduce_fails<T>(m: spec_fn(T) -> Result<Bbox, BboxError>)
    ensures
        reduce_bbox_spec(Seq::<T>::empty(), m) == Err::<Bbox, BboxError>(BboxError::EmptyGeometry),
{
}

/// Reducing a feature that carries no geometry fails with the
/// missing-geometry error.
pub proof fn lemma_feature_without_geometry_fails(f: Feature)
    requires
        f.geometry is None,
    ensures
        feature_bbox_spec(f) == Err::<Bbox, BboxError>(BboxError::MissingGeometry),
{
}

/// Whenever a sequence of coordinate pairs reduces to a rectangle, that
/// rectangle is well-formed.
pub proof fn lemma_positions_bbox_wf(s: Seq<Position>)
    ensures
        positions_bbox_spec(s) is Ok ==> bbox_wf(positions_bbox_spec(s)->Ok_0),
{
    lemma_reduce_wf(s, position_rule());
}

/// Whenever a polygon's ring sequence yields a rectangle, it is well-formed.
pub proof fn lemma_polygon_bbox_wf(rings: Seq<Vec<Position>>)
    ensures
        polygon_bbox_spec(rings) is Ok ==> bbox_wf(polygon_bbox_spec(rings)->Ok_0),
{
    if rings.len() > 0 {
        lemma_positions_bbox_wf(rings[0]@);
    }
}

/// Whenever a geometry node yields a rectangle, it is well-formed.
pub proof fn lemma_geometry_bbox_wf(g: Geometry)
    ensures
        geometry_bbox_spec(g) is Ok ==> bbox_wf(geometry_bbox_spec(g)->Ok_0),
    decreases g,
{
    lemma_value_bbox_wf(g.value);
}

/// Whenever a geometry node's shape data yields a rectangle, it is
/// well-formed.
pub proof fn lemma_value_bbox_wf(v: Value)
    ensures
        value_bbox_spec(v) is Ok ==> bbox_wf(value_bbox_spec(v)->Ok_0),
    decreases v,
{
    match v {
        Value::Point(_) => {},
        Value::MultiPoint(ps) => {
            lemma_positions_bbox_wf(ps@);
        },
        Value::LineString(ps) => {
            lemma_positions_bbox_wf(ps@);
        },
        Value::MultiLineString(ls) => {
            assert forall|i: int|
                0 <= i < ls@.len() && (#[trigger] ring_rule()(ls@[i])) is Ok implies bbox_wf(
                ring_rule()(ls@[i])->Ok_0,
            ) by {
                lemma_positions_bbox_wf(ls@[i]@);
            }
            lemma_reduce_wf(ls@, ring_rule());
        },
        Value::Polygon(rs) => {
            lemma_polygon_bbox_wf(rs@);
        },
        Value::MultiPolygon(ps) => {
            assert forall|i: int|
                0 <= i < ps@.len() && (#[trigger] polygon_rule()(ps@[i])) is Ok implies bbox_wf(
                polygon_rule()(ps@[i])->Ok_0,
            ) by {
                lemma_polygon_bbox_wf(ps@[i]@);
            }
            lemma_reduce_wf(ps@, polygon_rule());
        },
        Value::GeometryCollection(gs) => {
            lemma_geometries_bbox_wf(gs@);
        },
    }
}

/// Whenever a sequence of geometry nodes yields a rectangle, it is
/// well-formed.
pub proof fn lemma_geometries_bbox_wf(s: Seq<Geometry>)
    ensures
        geometries_bbox_spec(s) is Ok ==> bbox_wf(geometries_bbox_spec(s)->Ok_0),
    decreases s,
{
    if s.len() == 1 {
        lemma_geometry_bbox_wf(s[0]);
    } else if s.len() > 1 {
        lemma_geometries_bbox_wf(s.subrange(0, s.len() - 1));
        lemma_geometry_bbox_wf(s[s.len() - 1]);
        let a = geometries_bbox_spec(s.subrange(0, s.len() - 1));
        let b = geometry_bbox_spec(s[s.len() - 1]);
        if a is Ok && b is Ok {
            lemma_merge_wf(a->Ok_0, b->Ok_0);
        }
    }
}

/// Whenever a feature yields a rectangle, it is well-formed.
pub proof fn lemma_feature_bbox_wf(f: Feature)
    ensures
        feature_bbox_spec(f) is Ok ==> bbox_wf(feature_bbox_spec(f)->Ok_0),
{
    match f.geometry {
        Some(g) => lemma_geometry_bbox_wf(g),
        None => {},
    }
}

/// Whenever a feature collection yields a rectangle, it is well-formed.
pub proof fn lemma_feature_collection_bbox_wf(fc: FeatureCollection)
    ensures
        feature_collection_bbox_spec(fc) is Ok ==> bbox_wf(feature_collection_bbox_spec(fc)->Ok_0),
{
    let s = fc.features@;
    assert forall|i: int|
        0 <= i < s.len() && (#[trigger] feature_rule()(s[i])) is Ok implies bbox_wf(
        feature_rule()(s[i])->Ok_0,
    ) by {
        lemma_feature_bbox_wf(s[i]);
    }
    lemma_reduce_wf(s, feature_rule());
}

/// Every rectangle the system produces for a whole document is well-formed.
pub proof fn lemma_geojson_bbox_wf(d: GeoJson)
    ensures
        geojson_bbox_spec(d) is Ok ==> bbox_wf(geojson_bbox_spec(d)->Ok_0),
{
    match d {
        GeoJson::Geometry(g) => lemma_geometry_bbox_wf(g),
        GeoJson::Feature(f) => lemma_feature_bbox_wf(f),
        GeoJson::FeatureCollection(fc) => lemma_feature_collection_bbox_wf(fc),
    }
}

} // verus!

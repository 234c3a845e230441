//! The geometry document model and the per-kind decomposition rules.
//!
//! Each kind of node decomposes into either one coordinate pair (a point) or
//! a sequence of sub-elements handed to the divide-and-conquer reducer with
//! the rule for one sub-element. A polygon's rectangle comes from ring 0,
//! its exterior; hole rings never count toward the box. A feature must carry
//! a geometry; a missing one is a failure, not an empty rectangle.

use vstd::prelude::*;
use crate::bbox::Bbox;
use crate::bbox::Position;
use crate::bbox::position_bbox;
use crate::bbox::position_bbox_spec;
use crate::error::BboxError;
use crate::reduce::combine_spec;
use crate::reduce::compute_bbox;
use crate::reduce::reduce_bbox_spec;

verus! {

/// The shape data of a geometry node: one of the seven standard kinds.
#[derive(Debug, PartialEq)]
pub enum Value {
    /// One coordinate pair.
    Point(Position),
    /// An unordered set of coordinate pairs, stored in order.
    MultiPoint(Vec<Position>),
    /// A polyline: its vertices in order.
    LineString(Vec<Position>),
    /// A sequence of polylines.
    MultiLineString(Vec<Vec<Position>>),
    /// A sequence of rings; ring 0 is the exterior, the rest are holes.
    Polygon(Vec<Vec<Position>>),
    /// A sequence of polygon-shaped ring sequences.
    MultiPolygon(Vec<Vec<Vec<Position>>>),
    /// A heterogeneous sequence of geometry nodes.
    GeometryCollection(Vec<Geometry>),
}

/// A geometry node.
#[derive(Debug, PartialEq)]
pub struct Geometry {
    pub value: Value,
}

/// A geometry with attached metadata. The metadata plays no part in the
/// reduction and is not represented; the geometry itself is optional in the
/// interchange format, so it is optional here, and reducing a feature
/// without one fails.
#[derive(Debug, PartialEq)]
pub struct Feature {
    pub geometry: Option<Geometry>,
}

/// An ordered collection of features.
#[derive(Debug, PartialEq)]
pub struct FeatureCollection {
    pub features: Vec<Feature>,
}

/// A whole document: a bare geometry, one feature, or a collection.
#[derive(Debug, PartialEq)]
pub enum GeoJson {
    Geometry(Geometry),
    Feature(Feature),
    FeatureCollection(FeatureCollection),
}

/// The rule for one coordinate pair: its degenerate rectangle.
pub open spec fn position_rule() -> spec_fn(Position) -> Result<Bbox, BboxError> {
    |p: Position| Ok(position_bbox_spec(p))
}

/// The rectangle of a sequence of coordinate pairs.
pub open spec fn positions_bbox_spec(s: Seq<Position>) -> Result<Bbox, BboxError> {
    reduce_bbox_spec(s, position_rule())
}

/// The rule for one polyline: the rectangle of its vertices.
pub open spec fn ring_rule() -> spec_fn(Vec<Position>) -> Result<Bbox, BboxError> {
    |ring: Vec<Position>| positions_bbox_spec(ring@)
}

/// The rectangle of a sequence of polylines.
pub open spec fn rings_bbox_spec(s: Seq<Vec<Position>>) -> Result<Bbox, BboxError> {
    reduce_bbox_spec(s, ring_rule())
}

/// The rectangle of a polygon's ring sequence: that of ring 0, the
/// exterior; hole rings are discarded for bounding purposes.
pub open spec fn polygon_bbox_spec(rings: Seq<Vec<Position>>) -> Result<Bbox, BboxError> {
    if rings.len() == 0 {
        Err(BboxError::EmptyGeometry)
    } else {
        positions_bbox_spec(rings[0]@)
    }
}

/// The rule for one polygon-shaped ring sequence.
pub open spec fn polygon_rule() -> spec_fn(Vec<Vec<Position>>) -> Result<Bbox, BboxError> {
    |rings: Vec<Vec<Position>>| polygon_bbox_spec(rings@)
}

/// The rectangle of a sequence of polygons.
pub open spec fn polygons_bbox_spec(s: Seq<Vec<Vec<Position>>>) -> Result<Bbox, BboxError> {
    reduce_bbox_spec(s, polygon_rule())
}

/// The rectangle of a geometry node.
pub open spec fn geometry_bbox_spec(g: Geometry) -> Result<Bbox, BboxError>
    decreases g,
{
    value_bbox_spec(g.value)
}

/// The rectangle of a geometry node's shape data, by kind.
pub open spec fn value_bbox_spec(v: Value) -> Result<Bbox, BboxError>
    decreases v,
{
    match v {
        Value::Point(p) => Ok(position_bbox_spec(p)),
        Value::MultiPoint(ps) => positions_bbox_spec(ps@),
        Value::LineString(ps) => positions_bbox_spec(ps@),
        Value::MultiLineString(ls) => rings_bbox_spec(ls@),
        Value::Polygon(rs) => polygon_bbox_spec(rs@),
        Value::MultiPolygon(ps) => polygons_bbox_spec(ps@),
        Value::GeometryCollection(gs) => geometries_bbox_spec(gs@),
    }
}

/// The rectangle of a sequence of geometry nodes. Written out recursively
/// rather than through `reduce_bbox_spec` because it is mutually recursive
/// with the rectangle of one node; `lemma_geometries_is_reduce` bridges the
/// two forms.
pub open spec fn geometries_bbox_spec(s: Seq<Geometry>) -> Result<Bbox, BboxError>
    decreases s,
{
    if s.len() == 0 {
        Err(BboxError::EmptyGeometry)
    } else if s.len() == 1 {
        geometry_bbox_spec(s[0])
    } else {
        combine_spec(
            geometries_bbox_spec(s.subrange(0, s.len() - 1)),
            geometry_bbox_spec(s[s.len() - 1]),
        )
    }
}

/// The rule for one geometry node.
pub open spec fn geometry_rule() -> spec_fn(Geometry) -> Result<Bbox, BboxError> {
    |g: Geometry| geometry_bbox_spec(g)
}

/// The two forms of the geometry-sequence rectangle agree.
pub proof fn lemma_geometries_is_reduce(s: Seq<Geometry>)
    ensures
        geometries_bbox_spec(s) == reduce_bbox_spec(s, geometry_rule()),
    decreases s.len(),
{
    if s.len() > 1 {
        lemma_geometries_is_reduce(s.subrange(0, s.len() - 1));
    }
}

/// The rectangle of one feature: that of its geometry, which it must carry.
pub open spec fn feature_bbox_spec(f: Feature) -> Result<Bbox, BboxError> {
    match f.geometry {
        Some(g) => geometry_bbox_spec(g),
        None => Err(BboxError::MissingGeometry),
    }
}

/// The rule for one feature.
pub open spec fn feature_rule() -> spec_fn(Feature) -> Result<Bbox, BboxError> {
    |f: Feature| feature_bbox_spec(f)
}

/// The rectangle of a sequence of features.
pub open spec fn features_bbox_spec(s: Seq<Feature>) -> Result<Bbox, BboxError> {
    reduce_bbox_spec(s, feature_rule())
}

/// The rectangle of a feature collection.
pub open spec fn feature_collection_bbox_spec(fc: FeatureCollection) -> Result<Bbox, BboxError> {
    features_bbox_spec(fc.features@)
}

/// The rectangle of a whole document.
pub open spec fn geojson_bbox_spec(d: GeoJson) -> Result<Bbox, BboxError> {
    match d {
        GeoJson::Geometry(g) => geometry_bbox_spec(g),
        GeoJson::Feature(f) => feature_bbox_spec(f),
        GeoJson::FeatureCollection(fc) => feature_collection_bbox_spec(fc),
    }
}

/// Reduce a slice of coordinate pairs.
pub fn positions_bbox(v: &[Position]) -> (r: Result<Bbox, BboxError>)
    ensures
        r == positions_bbox_spec(v@),
{
    let func = (|p: &Position| -> (out: Result<Bbox, BboxError>)
        ensures
            out == Ok::<Bbox, BboxError>(position_bbox_spec(*p)),
        { Ok(position_bbox(p)) });
    compute_bbox(v, &func, Ghost(position_rule()))
}

/// Reduce a slice of polylines: each polyline contributes the rectangle of
/// its vertices.
pub fn rings_bbox(v: &[Vec<Position>]) -> (r: Result<Bbox, BboxError>)
    ensures
        r == rings_bbox_spec(v@),
{
    let func = (|ring: &Vec<Position>| -> (out: Result<Bbox, BboxError>)
        ensures
            out == positions_bbox_spec(ring@),
        { positions_bbox(ring.as_slice()) });
    compute_bbox(v, &func, Ghost(ring_rule()))
}

/// The rectangle of a polygon's ring sequence: ring 0, the exterior, alone
/// decides it; holes are ignored.
pub fn polygon_bbox(rings: &Vec<Vec<Position>>) -> (r: Result<Bbox, BboxError>)
    ensures
        r == polygon_bbox_spec(rings@),
{
    if rings.len() == 0 {
        Err(BboxError::EmptyGeometry)
    } else {
        positions_bbox(rings[0].as_slice())
    }
}

/// Reduce a slice of polygon-shaped ring sequences by the polygon rule.
pub fn polygons_bbox(v: &[Vec<Vec<Position>>]) -> (r: Result<Bbox, BboxError>)
    ensures
        r == polygons_bbox_spec(v@),
{
    let func = (|rings: &Vec<Vec<Position>>| -> (out: Result<Bbox, BboxError>)
        ensures
            out == polygon_bbox_spec(rings@),
        { polygon_bbox(rings) });
    compute_bbox(v, &func, Ghost(polygon_rule()))
}

/// Reduce a slice of geometry nodes.
pub fn geometries_bbox(v: &[Geometry]) -> (r: Result<Bbox, BboxError>)
    ensures
        r == geometries_bbox_spec(v@),
    decreases v@,
{
    let func = (|g: &Geometry| -> (out: Result<Bbox, BboxError>)
        requires
            v@.contains(*g),
        ensures
            out == geometry_bbox_spec(*g),
        {
            proof {
                let i = choose|i: int| 0 <= i < v@.len() && v@[i] == *g;
                assert(decreases_to!(v@ => v@[i]));
            }
            g.to_bbox()
        });
    proof {
        assert forall|i: int| #![trigger v@[i]] 0 <= i < v@.len() implies call_requires(
            func,
            (&v@[i],),
        ) by {
            assert(v@.contains(v@[i]));
        }
        lemma_geometries_is_reduce(v@);
    }
    compute_bbox(v, &func, Ghost(geometry_rule()))
}

/// Reduce a slice of features.
pub fn features_bbox(v: &[Feature]) -> (r: Result<Bbox, BboxError>)
    ensures
        r == features_bbox_spec(v@),
{
    let func = (|f: &Feature| -> (out: Result<Bbox, BboxError>)
        ensures
            out == feature_bbox_spec(*f),
        { f.to_bbox() });
    compute_bbox(v, &func, Ghost(feature_rule()))
}

impl Geometry {
    /// The bounding rectangle of this node.
    pub fn to_bbox(&self) -> (r: Result<Bbox, BboxError>)
        ensures
            r == geometry_bbox_spec(*self),
        decreases self,
    {
        self.value.to_bbox()
    }
}

impl Value {
    /// The bounding rectangle of this shape, by its kind's rule.
    pub fn to_bbox(&self) -> (r: Result<Bbox, BboxError>)
        ensures
            r == value_bbox_spec(*self),
        decreases self,
    {
        match self {
            Value::Point(p) => Ok(p.to_bbox()),
            Value::MultiPoint(vp) => positions_bbox(vp.as_slice()),
            Value::LineString(vp) => positions_bbox(vp.as_slice()),
            Value::MultiLineString(vvp) => rings_bbox(vvp.as_slice()),
            Value::Polygon(vvp) => polygon_bbox(vvp),
            Value::MultiPolygon(vvvp) => polygons_bbox(vvvp.as_slice()),
            Value::GeometryCollection(geoms) => geometries_bbox(geoms.as_slice()),
        }
    }
}

impl Feature {
    /// The bounding rectangle of this feature's geometry; a feature without
    /// one has no extent, which is a failure.
    pub fn to_bbox(&self) -> (r: Result<Bbox, BboxError>)
        ensures
            r == feature_bbox_spec(*self),
    {
        match &self.geometry {
            Some(g) => g.to_bbox(),
            None => Err(BboxError::MissingGeometry),
        }
    }
}

impl FeatureCollection {
    /// The bounding rectangle of all features together; an empty collection
    /// has no extent, which is a failure.
    pub fn to_bbox(&self) -> (r: Result<Bbox, BboxError>)
        ensures
            r == feature_collection_bbox_spec(*self),
    {
        features_bbox(self.features.as_slice())
    }
}

impl GeoJson {
    /// The bounding rectangle of a whole document, or the first failure met.
    pub fn to_bbox(&self) -> (r: Result<Bbox, BboxError>)
        ensures
            r == geojson_bbox_spec(*self),
    {
        match self {
            GeoJson::Geometry(geometry) => geometry.to_bbox(),
            GeoJson::Feature(feature) => feature.to_bbox(),
            GeoJson::FeatureCollection(fc) => fc.to_bbox(),
        }
    }
}

} // verus!

//! Bounding-box reduction for planar vector geometries.
//!
//! The crate folds a hierarchical geometry document (points, line strings,
//! polygons with rings, collections, feature wrappers) into a single
//! axis-aligned bounding rectangle, by a divide-and-conquer merge that may
//! evaluate the two halves of a split in parallel.
//!
//! Coordinates are signed integers. A caller whose data is floating point
//! maps each finite value to an order-preserving integer key at the boundary
//! and maps the four fields of the result back; minima and maxima are
//! preserved by any such monotone embedding.

mod bbox;
mod error;
mod geometry;
mod laws;
mod reduce;

pub use laws::min_x;
pub use laws::max_x;
pub use laws::min_y;
pub use laws::max_y;
pub use laws::lemma_positions_bbox_is_linear_scan;
pub use laws::lemma_scan_bounds;
pub use laws::lemma_min_x_attained;
pub use laws::lemma_max_x_attained;
pub use laws::lemma_min_y_attained;
pub use laws::lemma_max_y_attained;
pub use laws::lemma_positions_bbox_permutation;
pub use laws::lemma_polygon_ignores_holes;
pub use laws::lemma_empty_reduce_fails;
pub use laws::lemma_feature_without_geometry_fails;
pub use laws::lemma_positions_bbox_wf;
pub use laws::lemma_polygon_bbox_wf;
pub use laws::lemma_geometry_bbox_wf;
pub use laws::lemma_value_bbox_wf;
pub use laws::lemma_geometries_bbox_wf;
pub use laws::lemma_feature_bbox_wf;
pub use laws::lemma_feature_collection_bbox_wf;
pub use laws::lemma_geojson_bbox_wf;
pub use reduce::lemma_reduce_wf;

pub use geometry::Value;
pub use geometry::Geometry;
pub use geometry::Feature;
pub use geometry::FeatureCollection;
pub use geometry::GeoJson;
pub use geometry::position_rule;
pub use geometry::positions_bbox_spec;
pub use geometry::ring_rule;
pub use geometry::rings_bbox_spec;
pub use geometry::polygon_bbox_spec;
pub use geometry::polygon_rule;
pub use geometry::polygons_bbox_spec;
pub use geometry::geometry_bbox_spec;
pub use geometry::value_bbox_spec;
pub use geometry::geometries_bbox_spec;
pub use geometry::geometry_rule;
pub use geometry::lemma_geometries_is_reduce;
pub use geometry::feature_bbox_spec;
pub use geometry::feature_rule;
pub use geometry::features_bbox_spec;
pub use geometry::feature_collection_bbox_spec;
pub use geometry::geojson_bbox_spec;
pub use geometry::positions_bbox;
pub use geometry::rings_bbox;
pub use geometry::polygon_bbox;
pub use geometry::polygons_bbox;
pub use geometry::geometries_bbox;
pub use geometry::features_bbox;

pub use error::BboxError;
pub use reduce::combine_spec;
pub use reduce::reduce_bbox_spec;
pub use reduce::compute_bbox;
pub use reduce::lemma_combine_assoc;
pub use reduce::lemma_reduce_split;
pub use bbox::Bbox;
pub use bbox::Position;
pub use bbox::position_bbox;
pub use bbox::position_bbox_spec;
pub use bbox::merge_spec;
pub use bbox::lemma_merge_assoc;
pub use bbox::lemma_merge_comm;
pub use bbox::lemma_merge_idem;

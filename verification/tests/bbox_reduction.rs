use par_bbox::Bbox;
use par_bbox::BboxError;
use par_bbox::Feature;
use par_bbox::FeatureCollection;
use par_bbox::GeoJson;
use par_bbox::Geometry;
use par_bbox::Position;
use par_bbox::Value;
use par_bbox::position_bbox;

fn p(x: i64, y: i64) -> Position {
    Position { x, y }
}

fn bbox(xmin: i64, xmax: i64, ymin: i64, ymax: i64) -> Bbox {
    Bbox { xmin, xmax, ymin, ymax }
}

#[test]
fn merge_is_commutative_on_values() {
    let a = bbox(0, 4, -2, 7);
    let b = bbox(-3, 1, 5, 9);
    assert_eq!(a.merge(&b), b.merge(&a));
    assert_eq!(a.merge(&b), bbox(-3, 4, -2, 9));
}

#[test]
fn merge_is_associative_on_values() {
    let a = bbox(0, 1, 0, 1);
    let b = bbox(5, 6, 5, 6);
    let c = bbox(-4, -2, 3, 8);
    assert_eq!(a.merge(&b.merge(&c)), a.merge(&b).merge(&c));
}

#[test]
fn merge_is_idempotent_on_values() {
    let a = bbox(-7, 3, 1, 12);
    assert_eq!(a.merge(&a), a);
}

#[test]
fn lifting_a_pair_gives_a_degenerate_rectangle() {
    let pair = p(42, -17);
    assert_eq!(pair.to_bbox(), bbox(42, 42, -17, -17));
    assert_eq!(position_bbox(&pair), bbox(42, 42, -17, -17));
}

#[test]
fn point_yields_its_own_rectangle() {
    let g = Geometry { value: Value::Point(p(10, 20)) };
    assert_eq!(g.to_bbox(), Ok(bbox(10, 10, 20, 20)));
}

#[test]
fn line_string_of_two_points() {
    let g = Geometry { value: Value::LineString(vec![p(0, 0), p(5, 5)]) };
    assert_eq!(g.to_bbox(), Ok(bbox(0, 5, 0, 5)));
}

#[test]
fn multi_point_matches_linear_scan() {
    let pts = vec![p(3, -1), p(-8, 4), p(12, 0), p(5, -9), p(0, 2), p(-2, 11), p(7, 7)];
    let g = Geometry { value: Value::MultiPoint(pts) };
    assert_eq!(g.to_bbox(), Ok(bbox(-8, 12, -9, 11)));
}

#[test]
fn multi_point_order_does_not_matter() {
    let forward = Geometry { value: Value::MultiPoint(vec![p(1, 1), p(-4, 9), p(6, -3)]) };
    let shuffled = Geometry { value: Value::MultiPoint(vec![p(6, -3), p(1, 1), p(-4, 9)]) };
    assert_eq!(forward.to_bbox(), shuffled.to_bbox());
    assert_eq!(forward.to_bbox(), Ok(bbox(-4, 6, -3, 9)));
}

#[test]
fn multi_line_string_covers_all_lines() {
    let g = Geometry {
        value: Value::MultiLineString(vec![
            vec![p(0, 0), p(2, 2)],
            vec![p(-5, 1), p(1, 8)],
        ]),
    };
    assert_eq!(g.to_bbox(), Ok(bbox(-5, 2, 0, 8)));
}

#[test]
fn polygon_ignores_a_hole_larger_than_its_exterior() {
    let exterior = vec![p(0, 0), p(10, 0), p(10, 10), p(0, 10), p(0, 0)];
    let hole = vec![p(-5, -5), p(20, 20)];
    let g = Geometry { value: Value::Polygon(vec![exterior, hole]) };
    assert_eq!(g.to_bbox(), Ok(bbox(0, 10, 0, 10)));
}

#[test]
fn polygon_without_rings_fails() {
    let g = Geometry { value: Value::Polygon(vec![]) };
    assert_eq!(g.to_bbox(), Err(BboxError::EmptyGeometry));
}

#[test]
fn multi_polygon_merges_the_exterior_rectangles() {
    let first = vec![vec![p(0, 0), p(1, 0), p(1, 1), p(0, 1), p(0, 0)]];
    let second = vec![vec![p(5, 5), p(6, 5), p(6, 6), p(5, 6), p(5, 5)]];
    let g = Geometry { value: Value::MultiPolygon(vec![first, second]) };
    assert_eq!(g.to_bbox(), Ok(bbox(0, 6, 0, 6)));
}

#[test]
fn geometry_collection_of_point_and_line_string() {
    let point = Geometry { value: Value::Point(p(0, 0)) };
    let line = Geometry { value: Value::LineString(vec![p(10, 10), p(-10, -10)]) };
    let g = Geometry { value: Value::GeometryCollection(vec![point, line]) };
    assert_eq!(g.to_bbox(), Ok(bbox(-10, 10, -10, 10)));
}

#[test]
fn multi_line_string_with_an_empty_line_fails() {
    let g = Geometry {
        value: Value::MultiLineString(vec![vec![p(0, 0), p(1, 1)], vec![]]),
    };
    assert_eq!(g.to_bbox(), Err(BboxError::EmptyGeometry));
}

#[test]
fn multi_polygon_with_a_ringless_polygon_fails() {
    let first = vec![vec![p(0, 0), p(1, 0), p(1, 1), p(0, 1), p(0, 0)]];
    let g = Geometry { value: Value::MultiPolygon(vec![first, vec![]]) };
    assert_eq!(g.to_bbox(), Err(BboxError::EmptyGeometry));
}

#[test]
fn empty_line_string_fails() {
    let g = Geometry { value: Value::LineString(vec![]) };
    assert_eq!(g.to_bbox(), Err(BboxError::EmptyGeometry));
}

#[test]
fn feature_without_geometry_fails() {
    let f = Feature { geometry: None };
    assert_eq!(f.to_bbox(), Err(BboxError::MissingGeometry));
}

#[test]
fn feature_wraps_its_geometry() {
    let f = Feature {
        geometry: Some(Geometry { value: Value::Point(p(10, 20)) }),
    };
    assert_eq!(f.to_bbox(), Ok(bbox(10, 10, 20, 20)));
}

#[test]
fn empty_feature_collection_fails() {
    let fc = FeatureCollection { features: vec![] };
    assert_eq!(fc.to_bbox(), Err(BboxError::EmptyGeometry));
}

#[test]
fn feature_collection_merges_its_features() {
    let fc = FeatureCollection {
        features: vec![
            Feature { geometry: Some(Geometry { value: Value::Point(p(-1, 2)) }) },
            Feature { geometry: Some(Geometry { value: Value::LineString(vec![p(0, 0), p(8, 3)]) }) },
        ],
    };
    assert_eq!(fc.to_bbox(), Ok(bbox(-1, 8, 0, 3)));
}

#[test]
fn feature_collection_surfaces_a_missing_geometry() {
    let fc = FeatureCollection {
        features: vec![
            Feature { geometry: Some(Geometry { value: Value::Point(p(1, 1)) }) },
            Feature { geometry: None },
        ],
    };
    assert_eq!(fc.to_bbox(), Err(BboxError::MissingGeometry));
}

#[test]
fn document_dispatches_each_root_kind() {
    let g = GeoJson::Geometry(Geometry { value: Value::Point(p(10, 20)) });
    assert_eq!(g.to_bbox(), Ok(bbox(10, 10, 20, 20)));

    let f = GeoJson::Feature(Feature {
        geometry: Some(Geometry { value: Value::LineString(vec![p(0, 0), p(5, 5)]) }),
    });
    assert_eq!(f.to_bbox(), Ok(bbox(0, 5, 0, 5)));

    let fc = GeoJson::FeatureCollection(FeatureCollection { features: vec![] });
    assert_eq!(fc.to_bbox(), Err(BboxError::EmptyGeometry));
}

#[test]
fn a_long_sequence_reduces_across_many_splits() {
    let mut pts = Vec::new();
    let mut i: i64 = 0;
    while i < 1000 {
        pts.push(p(i * 3 - 700, -i));
        i += 1;
    }
    let g = Geometry { value: Value::MultiPoint(pts) };
    assert_eq!(g.to_bbox(), Ok(bbox(-700, 999 * 3 - 700, -999, 0)));
}

#[test]
fn nested_collections_recurse() {
    let inner = Geometry {
        value: Value::GeometryCollection(vec![Geometry { value: Value::Point(p(100, -50)) }]),
    };
    let outer = Geometry {
        value: Value::GeometryCollection(vec![
            inner,
            Geometry { value: Value::Point(p(-3, 4)) },
        ]),
    };
    assert_eq!(outer.to_bbox(), Ok(bbox(-3, 100, -50, 4)));
}

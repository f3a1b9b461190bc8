use shapefile_wasm::{
    group_rings, pair_count, ring_point_count, slice_rings, GeometryError, GeometryPlan,
    ProcessError, ShapefileProcessor,
};

#[test]
fn test_processor_creation() {
    let processor = ShapefileProcessor::new();
    assert!(matches!(processor.plan_geometry(1, 2), Ok(GeometryPlan::Point)));
}

#[test]
fn pair_count_refuses_odd_length() {
    assert_eq!(pair_count(0), Ok(0));
    assert_eq!(pair_count(6), Ok(3));
    assert_eq!(pair_count(5), Err(GeometryError::OddLength));
    assert_eq!(pair_count(1), Err(GeometryError::OddLength));
}

#[test]
fn ring_needs_three_points() {
    assert_eq!(ring_point_count(4), Err(GeometryError::TooFewPoints));
    assert_eq!(ring_point_count(6), Ok(3));
    assert_eq!(ring_point_count(7), Err(GeometryError::OddLength));
}

#[test]
fn slice_rings_in_order() {
    let r = slice_rings(20, &vec![5, 5]).unwrap();
    assert_eq!(r, vec![(0, 10), (10, 20)]);
    let partial = slice_rings(30, &vec![4, 3]).unwrap();
    assert_eq!(partial, vec![(0, 8), (8, 14)]);
    assert_eq!(slice_rings(10, &vec![]).unwrap(), vec![]);
}

#[test]
fn slice_rings_errors() {
    assert_eq!(slice_rings(9, &vec![3]), Err(GeometryError::OddLength));
    assert_eq!(slice_rings(10, &vec![3, 3]), Err(GeometryError::SliceOutOfBounds));
    assert_eq!(slice_rings(10, &vec![usize::MAX]), Err(GeometryError::SliceOutOfBounds));
    assert_eq!(slice_rings(20, &vec![2, 3]), Err(GeometryError::TooFewPoints));
    assert_eq!(slice_rings(6, &vec![2, 5]), Err(GeometryError::SliceOutOfBounds));
}

#[test]
fn square_with_hole_is_one_polygon() {
    let polygons = group_rings(&vec![true, false]);
    assert_eq!(polygons, vec![(0, 2)]);
}

#[test]
fn two_clockwise_squares_are_two_polygons() {
    let polygons = group_rings(&vec![true, true]);
    assert_eq!(polygons, vec![(0, 1), (1, 2)]);
}

#[test]
fn leading_counter_clockwise_ring_opens_first_polygon() {
    assert_eq!(
        group_rings(&vec![false, false, true, false, true]),
        vec![(0, 2), (2, 4), (4, 5)]
    );
    assert_eq!(group_rings(&vec![]), Vec::<(usize, usize)>::new());
}

#[test]
fn geometry_error_messages() {
    assert_eq!(GeometryError::OddLength.message(), "Coordinates array must have even length");
    assert_eq!(GeometryError::TooFewPoints.message(), "Ring must have at least 3 points");
}

#[test]
fn plan_routes_by_shape_type() {
    let p = ShapefileProcessor::new();
    assert!(matches!(p.plan_geometry(1, 3), Err(ProcessError::PointArity)));
    assert!(matches!(p.plan_geometry(0, 2), Err(ProcessError::NullShape)));
    assert!(matches!(p.plan_geometry(13, 4), Err(ProcessError::UnsupportedShape)));
    assert!(matches!(p.plan_geometry(3, 8), Ok(GeometryPlan::LineString(4))));
    assert!(matches!(p.plan_geometry(8, 6), Ok(GeometryPlan::MultiPoint(3))));
    assert!(matches!(
        p.plan_geometry(3, 7),
        Err(ProcessError::Geometry(GeometryError::OddLength))
    ));
    match p.plan_geometry(5, 8) {
        Ok(GeometryPlan::Polygon(r)) => assert_eq!(r, vec![(0, 8)]),
        _ => panic!("expected a polygon plan"),
    }
    assert!(matches!(
        p.plan_geometry(5, 4),
        Err(ProcessError::Geometry(GeometryError::TooFewPoints))
    ));
    match p.plan_geometry(999, 2) {
        Err(e) => assert_eq!(e.message(), "Invalid shape type: 999"),
        _ => panic!("expected an invalid shape"),
    }
}

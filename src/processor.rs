//! Routing of one shape record to the geometry it encodes.
use crate::geometry::{pair_count, pair_count_spec, ring_slices_spec, slice_rings, GeometryError};
use crate::validation::{
    is_issue, is_known_shape_type, record_kind, shape_type_message, validate_shape_type,
    ValidationIssue,
};
use vstd::prelude::*;

verus! {

/// Shape type code of a point.
pub const SHAPE_POINT: u32 = 1;

/// Shape type code of a polyline.
pub const SHAPE_POLYLINE: u32 = 3;

/// Shape type code of a polygon.
pub const SHAPE_POLYGON: u32 = 5;

/// Shape type code of a multipoint.
pub const SHAPE_MULTIPOINT: u32 = 8;

/// What to build from a record's flat coordinate array.
#[derive(Debug)]
pub enum GeometryPlan {
    /// A point from the two scalars.
    Point,
    /// A line string of this many points.
    LineString(usize),
    /// A multipoint of this many points.
    MultiPoint(usize),
    /// Polygon rings, as half-open scalar ranges, still to be grouped by winding order.
    Polygon(Vec<(usize, usize)>),
}

/// Why a record cannot be turned into geometry.
#[derive(Debug)]
pub enum ProcessError {
    /// The shape type code is not one of the format's codes.
    InvalidShape(ValidationIssue),
    /// The record is a null shape and carries no geometry.
    NullShape,
    /// A point record does not have exactly two scalars.
    PointArity,
    /// The shape type is known but has no conversion.
    UnsupportedShape,
    /// The coordinates do not fit the shape.
    Geometry(GeometryError),
}

impl ProcessError {
    /// A readable description of the error.
    pub fn message(&self) -> (r: &str)
        ensures
            self matches ProcessError::InvalidShape(e) ==> r@ == e.spec_message(),
            self is NullShape ==> r@ == "Invalid or null shape type"@,
            self is PointArity ==> r@ == "Point must have exactly 2 coordinates"@,
            self is UnsupportedShape ==> r@ == "Unsupported shape type"@,
            self matches ProcessError::Geometry(g) ==> r@ == g.spec_message(),
    {
        match self {
            ProcessError::InvalidShape(e) => e.message(),
            ProcessError::NullShape => "Invalid or null shape type",
            ProcessError::PointArity => "Point must have exactly 2 coordinates",
            ProcessError::UnsupportedShape => "Unsupported shape type",
            ProcessError::Geometry(g) => g.message(),
        }
    }
}

/// Entry point that routes records by shape type. It holds no state.
#[derive(Debug)]
pub struct ShapefileProcessor {}

impl ShapefileProcessor {
    pub fn new() -> Self {
        ShapefileProcessor {  }
    }

    /// Decides how a record of `shape_type` with `coord_count` scalars becomes
    /// geometry. A polygon is read as one ring spanning the whole array, since
    /// the record's part boundaries are not given here.
    pub fn plan_geometry(&self, shape_type: u32, coord_count: usize) -> (r: Result<
        GeometryPlan,
        ProcessError,
    >)
        ensures
            !is_known_shape_type(shape_type) ==> (r matches Err(ProcessError::InvalidShape(e))
                && is_issue(e, record_kind(), shape_type_message(shape_type as nat))),
            shape_type == 0 ==> r matches Err(ProcessError::NullShape),
            shape_type == SHAPE_POINT ==> (if coord_count == 2 {
                r matches Ok(GeometryPlan::Point)
            } else {
                r matches Err(ProcessError::PointArity)
            }),
            shape_type == SHAPE_POLYLINE ==> match pair_count_spec(coord_count as int) {
                Ok(n) => (r matches Ok(GeometryPlan::LineString(m)) && m == n),
                Err(g) => (r matches Err(ProcessError::Geometry(h)) && h == g),
            },
            shape_type == SHAPE_MULTIPOINT ==> match pair_count_spec(coord_count as int) {
                Ok(n) => (r matches Ok(GeometryPlan::MultiPoint(m)) && m == n),
                Err(g) => (r matches Err(ProcessError::Geometry(h)) && h == g),
            },
            shape_type == SHAPE_POLYGON ==> match ring_slices_spec(
                coord_count as int,
                seq![(coord_count / 2) as usize],
            ) {
                Ok(s) => (r matches Ok(GeometryPlan::Polygon(v)) && v@ == s),
                Err(g) => (r matches Err(ProcessError::Geometry(h)) && h == g),
            },
            is_known_shape_type(shape_type) && shape_type != 0 && shape_type != SHAPE_POINT
                && shape_type != SHAPE_POLYLINE && shape_type != SHAPE_MULTIPOINT && shape_type
                != SHAPE_POLYGON ==> r matches Err(ProcessError::UnsupportedShape),
    {
        match validate_shape_type(shape_type) {
            Err(e) => {
                return Err(ProcessError::InvalidShape(e));
            },
            Ok(false) => {
                return Err(ProcessError::NullShape);
            },
            Ok(true) => {},
        }
        if shape_type == SHAPE_POINT {
            if coord_count != 2 {
                return Err(ProcessError::PointArity);
            }
            Ok(GeometryPlan::Point)
        } else if shape_type == SHAPE_POLYLINE {
            match pair_count(coord_count) {
                Ok(n) => Ok(GeometryPlan::LineString(n)),
                Err(g) => Err(ProcessError::Geometry(g)),
            }
        } else if shape_type == SHAPE_POLYGON {
            let ring_sizes = vec![coord_count / 2];
            assert(ring_sizes@ =~= seq![(coord_count / 2) as usize]);
            match slice_rings(coord_count, &ring_sizes) {
                Ok(v) => Ok(GeometryPlan::Polygon(v)),
                Err(g) => Err(ProcessError::Geometry(g)),
            }
        } else if shape_type == SHAPE_MULTIPOINT {
            match pair_count(coord_count) {
                Ok(n) => Ok(GeometryPlan::MultiPoint(n)),
                Err(g) => Err(ProcessError::Geometry(g)),
            }
        } else {
            Err(ProcessError::UnsupportedShape)
        }
    }
}

} // verus!

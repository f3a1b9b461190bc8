//! Validation and geometry planning for shapefile records.
mod geometry;
mod processor;
mod text;
mod validation;

pub use geometry::{
    lemma_odd_length_refused, group_rings, pair_count, ring_point_count, slice_rings,
    GeometryError,
};
pub use processor::{
    GeometryPlan, ProcessError, ShapefileProcessor, SHAPE_MULTIPOINT, SHAPE_POINT, SHAPE_POLYGON,
    SHAPE_POLYLINE,
};
pub use text::{signed_text, unsigned_text};
pub use validation::{
    validate_file_code, validate_file_length, validate_header_buffer, validate_part_index,
    validate_part_range, validate_parts_and_points, validate_record_buffer_space,
    validate_record_content_length, validate_shape_type, validate_version, ValidationDetails,
    ValidationIssue, FILE_CODE, HEADER_LENGTH, MAX_PARTS_OR_POINTS, MAX_RECORD_CONTENT_LENGTH,
    VERSION,
};

use shapefile_wasm::{
    signed_text, unsigned_text, validate_file_code, validate_file_length, validate_header_buffer,
    validate_part_index, validate_part_range, validate_parts_and_points,
    validate_record_buffer_space, validate_record_content_length, validate_shape_type,
    validate_version, ValidationIssue, FILE_CODE, VERSION,
};

#[test]
fn test_validate_file_code() {
    assert!(validate_file_code(FILE_CODE).is_ok());
    assert!(validate_file_code(0).is_err());
}

#[test]
fn test_validate_shape_type() {
    assert!(validate_shape_type(1).unwrap());
    assert!(!validate_shape_type(0).unwrap());
    assert!(validate_shape_type(999).is_err());
}

#[test]
fn decimal_text_of_integers() {
    assert_eq!(unsigned_text(0), "0");
    assert_eq!(unsigned_text(9994), "9994");
    assert_eq!(unsigned_text(u64::MAX), "18446744073709551615");
    assert_eq!(signed_text(-1), "-1");
    assert_eq!(signed_text(1_000_001), "1000001");
    assert_eq!(signed_text(i64::MIN), "-9223372036854775808");
}

#[test]
fn header_buffer_boundary() {
    assert!(validate_header_buffer(100).is_ok());
    assert!(validate_header_buffer(5000).is_ok());
    let e = validate_header_buffer(99).unwrap_err();
    assert_eq!(e.issue_type(), "structure");
    assert_eq!(e.message(), "Invalid shapefile: buffer too small for header (got 99, need 100)");
    assert!(e.details().is_none());
}

#[test]
fn file_code_message_embeds_values() {
    let e = validate_file_code(-7).unwrap_err();
    assert_eq!(e.message(), "Invalid shapefile: incorrect file code (got -7, expected 9994)");
}

#[test]
fn file_length_bounds() {
    assert!(validate_file_length(100, 100).is_ok());
    assert!(validate_file_length(250, 300).is_ok());
    assert!(validate_file_length(99, 300).is_err());
    let e = validate_file_length(301, 300).unwrap_err();
    assert_eq!(e.message(), "Invalid shapefile: incorrect file length (got 301, buffer size 300)");
}

#[test]
fn version_must_match() {
    assert!(validate_version(VERSION).is_ok());
    let e = validate_version(999).unwrap_err();
    assert_eq!(e.issue_type(), "structure");
    assert_eq!(e.message(), "Invalid shapefile: unsupported version (got 999, expected 1000)");
}

#[test]
fn record_content_length_boundaries() {
    assert!(validate_record_content_length(0, 1).is_ok());
    assert!(validate_record_content_length(1_000_000, 1).is_ok());
    assert!(validate_record_content_length(-1, 1).is_err());
    let e = validate_record_content_length(1_000_001, 42).unwrap_err();
    assert_eq!(e.issue_type(), "record");
    assert_eq!(
        e.message(),
        "Invalid shapefile: unreasonable record content length 1000001 for record 42"
    );
}

#[test]
fn record_buffer_space_truncation() {
    assert!(validate_record_buffer_space(10, 90, 100, 1).is_ok());
    let e = validate_record_buffer_space(10, 91, 100, 3).unwrap_err();
    assert_eq!(
        e.message(),
        "Invalid shapefile: truncated record content for record 3 (need 91 bytes, have 90)"
    );
    let past = validate_record_buffer_space(120, 1, 100, 4).unwrap_err();
    assert_eq!(
        past.message(),
        "Invalid shapefile: truncated record content for record 4 (need 1 bytes, have 0)"
    );
    assert!(validate_record_buffer_space(usize::MAX, 1, usize::MAX, 5).is_err());
}

#[test]
fn parts_and_points_caps() {
    assert!(validate_parts_and_points(1, 1, "Polygon").is_ok());
    assert!(validate_parts_and_points(1_000_000, 1_000_000, "Polygon").is_ok());
    assert!(validate_parts_and_points(0, 5, "Polygon").is_err());
    assert!(validate_parts_and_points(2, 1_000_001, "Polygon").is_err());
    let e = validate_parts_and_points(-3, 4, "PolyLine").unwrap_err();
    assert_eq!(e.message(), "Invalid PolyLine: unreasonable number of parts (-3) or points (4)");
}

#[test]
fn part_index_bounds() {
    assert!(validate_part_index(0, 4).is_ok());
    assert!(validate_part_index(3, 4).is_ok());
    assert!(validate_part_index(-1, 4).is_err());
    let e = validate_part_index(4, 4).unwrap_err();
    assert_eq!(e.message(), "Invalid shapefile: part index 4 out of bounds (num points: 4)");
}

#[test]
fn part_range_must_be_nonempty() {
    assert!(validate_part_range(0, 1, 0).is_ok());
    assert!(validate_part_range(5, 2, 1).is_err());
    let e = validate_part_range(3, 3, 2).unwrap_err();
    assert_eq!(e.message(), "Invalid shapefile: part 2 has invalid range (3 >= 3)");
}

#[test]
fn shape_type_codes() {
    let known = [1u32, 3, 5, 8, 11, 13, 15, 18, 21, 23, 25, 28, 31];
    for code in known {
        assert_eq!(validate_shape_type(code).ok(), Some(true));
    }
    assert_eq!(validate_shape_type(0).ok(), Some(false));
    for code in [2u32, 4, 7, 30, 32, 999] {
        assert!(validate_shape_type(code).is_err());
    }
    let e = validate_shape_type(999).unwrap_err();
    assert_eq!(e.message(), "Invalid shape type: 999");
}

#[test]
fn issue_details_need_code_and_info() {
    let with = ValidationIssue::new("record", "bad", Some("E1"), Some("record 3"));
    assert_eq!(with.issue_type(), "record");
    assert_eq!(with.message(), "bad");
    let d = with.details().unwrap();
    assert_eq!(d.code(), "E1");
    assert_eq!(d.info(), "record 3");
    let without = ValidationIssue::new("record", "bad", Some("E1"), None);
    assert!(without.details().is_none());
}

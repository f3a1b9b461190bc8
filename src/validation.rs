//! Structural checks on shapefile headers and record framing.
//!
//! Each check takes values already read from the file and either succeeds or
//! reports one issue whose message embeds the offending values.
use crate::text::{decimal, push_signed, push_unsigned, signed_decimal};
use vstd::prelude::*;

verus! {

/// Size of the fixed file header, in bytes.
pub const HEADER_LENGTH: usize = 100;

/// The magic number that opens every shapefile.
pub const FILE_CODE: i32 = 9994;

/// The only format version that is read.
pub const VERSION: i32 = 1000;

/// Largest record content length that is accepted.
pub const MAX_RECORD_CONTENT_LENGTH: i32 = 1_000_000;

/// Largest number of parts, and of points, that one shape may declare.
pub const MAX_PARTS_OR_POINTS: i32 = 1_000_000;

/// A machine-readable code and context attached to an issue.
#[derive(Debug)]
pub struct ValidationDetails {
    code: String,
    info: String,
}

impl ValidationDetails {
    pub closed spec fn spec_code(&self) -> Seq<char> {
        self.code@
    }

    pub closed spec fn spec_info(&self) -> Seq<char> {
        self.info@
    }

    pub fn code(&self) -> (r: &str)
        ensures
            r@ == self.spec_code(),
    {
        self.code.as_str()
    }

    pub fn info(&self) -> (r: &str)
        ensures
            r@ == self.spec_info(),
    {
        self.info.as_str()
    }
}

/// One violated invariant: a category, a readable message and optional details.
#[derive(Debug)]
pub struct ValidationIssue {
    issue_type: String,
    message: String,
    details: Option<ValidationDetails>,
}

impl ValidationIssue {
    pub closed spec fn spec_issue_type(&self) -> Seq<char> {
        self.issue_type@
    }

    pub closed spec fn spec_message(&self) -> Seq<char> {
        self.message@
    }

    pub closed spec fn spec_details(&self) -> Option<(Seq<char>, Seq<char>)> {
        match self.details {
            Some(d) => Some((d.code@, d.info@)),
            None => None,
        }
    }

    /// Builds an issue; details are kept only when both a code and an info are given.
    pub fn new(issue_type: &str, message: &str, code: Option<&str>, info: Option<&str>) -> (r: Self)
        ensures
            r.spec_issue_type() == issue_type@,
            r.spec_message() == message@,
            r.spec_details() == (match (code, info) {
                (Some(c), Some(i)) => Some((c@, i@)),
                _ => None::<(Seq<char>, Seq<char>)>,
            }),
    {
        let details = match (code, info) {
            (Some(c), Some(i)) => Some(ValidationDetails { code: String::from_str(c), info: String::from_str(i) }),
            _ => None,
        };
        ValidationIssue {
            issue_type: String::from_str(issue_type),
            message: String::from_str(message),
            details,
        }
    }

    pub fn issue_type(&self) -> (r: &str)
        ensures
            r@ == self.spec_issue_type(),
    {
        self.issue_type.as_str()
    }

    pub fn message(&self) -> (r: &str)
        ensures
            r@ == self.spec_message(),
    {
        self.message.as_str()
    }

    pub fn details(&self) -> (r: Option<&ValidationDetails>)
        ensures
            r matches Some(d) ==> self.spec_details() == Some((d.spec_code(), d.spec_info())),
            r is None <==> self.spec_details() is None,
    {
        match &self.details {
            Some(d) => Some(d),
            None => None,
        }
    }
}

/// An issue of the given category and message, without details.
pub open spec fn is_issue(e: ValidationIssue, kind: Seq<char>, message: Seq<char>) -> bool {
    e.spec_issue_type() == kind && e.spec_message() == message && e.spec_details() is None
}

/// Category of issues that make the whole file unreadable.
pub open spec fn structure_kind() -> Seq<char> {
    "structure"@
}

/// Category of issues confined to one record.
pub open spec fn record_kind() -> Seq<char> {
    "record"@
}

fn plain_issue(kind: &str, message: String) -> (r: ValidationIssue)
    ensures
        is_issue(r, kind@, message@),
{
    ValidationIssue { issue_type: String::from_str(kind), message, details: None }
}

pub open spec fn header_buffer_message(buffer_length: nat) -> Seq<char> {
    "Invalid shapefile: buffer too small for header (got "@ + decimal(buffer_length) + ", need "@
        + decimal(HEADER_LENGTH as nat) + ")"@
}

/// Checks that the buffer can hold the fixed-size header.
pub fn validate_header_buffer(buffer_length: usize) -> (r: Result<(), ValidationIssue>)
    ensures
        r is Ok <==> buffer_length >= HEADER_LENGTH,
        r matches Err(e) ==> is_issue(e, structure_kind(), header_buffer_message(buffer_length as nat)),
{
    if buffer_length < HEADER_LENGTH {
        let mut s = String::from_str("Invalid shapefile: buffer too small for header (got ");
        push_unsigned(&mut s, buffer_length as u64);
        s.append(", need ");
        push_unsigned(&mut s, HEADER_LENGTH as u64);
        s.append(")");
        assert(s@ =~= header_buffer_message(buffer_length as nat));
        return Err(plain_issue("structure", s));
    }
    Ok(())
}

pub open spec fn file_code_message(file_code: int) -> Seq<char> {
    "Invalid shapefile: incorrect file code (got "@ + signed_decimal(file_code) + ", expected "@
        + signed_decimal(FILE_CODE as int) + ")"@
}

/// Checks the magic number at the start of the header.
pub fn validate_file_code(file_code: i32) -> (r: Result<(), ValidationIssue>)
    ensures
        r is Ok <==> file_code == FILE_CODE,
        r matches Err(e) ==> is_issue(e, structure_kind(), file_code_message(file_code as int)),
{
    if file_code != FILE_CODE {
        let mut s = String::from_str("Invalid shapefile: incorrect file code (got ");
        push_signed(&mut s, file_code as i64);
        s.append(", expected ");
        push_signed(&mut s, FILE_CODE as i64);
        s.append(")");
        assert(s@ =~= file_code_message(file_code as int));
        return Err(plain_issue("structure", s));
    }
    Ok(())
}

pub open spec fn file_length_message(file_length: nat, buffer_length: nat) -> Seq<char> {
    "Invalid shapefile: incorrect file length (got "@ + decimal(file_length) + ", buffer size "@
        + decimal(buffer_length) + ")"@
}

/// Checks that the declared file length covers the header and fits in the buffer.
pub fn validate_file_length(file_length: usize, buffer_length: usize) -> (r: Result<(), ValidationIssue>)
    ensures
        r is Ok <==> HEADER_LENGTH <= file_length <= buffer_length,
        r matches Err(e) ==> is_issue(
            e,
            structure_kind(),
            file_length_message(file_length as nat, buffer_length as nat),
        ),
{
    if file_length < HEADER_LENGTH || file_length > buffer_length {
        let mut s = String::from_str("Invalid shapefile: incorrect file length (got ");
        push_unsigned(&mut s, file_length as u64);
        s.append(", buffer size ");
        push_unsigned(&mut s, buffer_length as u64);
        s.append(")");
        assert(s@ =~= file_length_message(file_length as nat, buffer_length as nat));
        return Err(plain_issue("structure", s));
    }
    Ok(())
}

pub open spec fn version_message(version: int) -> Seq<char> {
    "Invalid shapefile: unsupported version (got "@ + signed_decimal(version) + ", expected "@
        + signed_decimal(VERSION as int) + ")"@
}

/// Checks the format version in the header.
pub fn validate_version(version: i32) -> (r: Result<(), ValidationIssue>)
    ensures
        r is Ok <==> version == VERSION,
        r matches Err(e) ==> is_issue(e, structure_kind(), version_message(version as int)),
{
    if version != VERSION {
        let mut s = String::from_str("Invalid shapefile: unsupported version (got ");
        push_signed(&mut s, version as i64);
        s.append(", expected ");
        push_signed(&mut s, VERSION as i64);
        s.append(")");
        assert(s@ =~= version_message(version as int));
        return Err(plain_issue("structure", s));
    }
    Ok(())
}

pub open spec fn record_content_length_message(content_length: int, record_number: int) -> Seq<char> {
    "Invalid shapefile: unreasonable record content length "@ + signed_decimal(content_length)
        + " for record "@ + signed_decimal(record_number)
}

/// Checks that a record's declared content length is neither negative nor over the cap.
pub fn validate_record_content_length(content_length: i32, record_number: i32) -> (r: Result<(), ValidationIssue>)
    ensures
        r is Ok <==> 0 <= content_length <= MAX_RECORD_CONTENT_LENGTH,
        r matches Err(e) ==> is_issue(
            e,
            record_kind(),
            record_content_length_message(content_length as int, record_number as int),
        ),
{
    if content_length < 0 || content_length > MAX_RECORD_CONTENT_LENGTH {
        let mut s = String::from_str("Invalid shapefile: unreasonable record content length ");
        push_signed(&mut s, content_length as i64);
        s.append(" for record ");
        push_signed(&mut s, record_number as i64);
        assert(s@ =~= record_content_length_message(content_length as int, record_number as int));
        return Err(plain_issue("record", s));
    }
    Ok(())
}

/// Bytes left in the buffer from `offset` on; none when the offset lies past its end.
pub open spec fn bytes_left(offset: nat, buffer_length: nat) -> nat {
    if offset <= buffer_length {
        (buffer_length - offset) as nat
    } else {
        0
    }
}

pub open spec fn record_buffer_space_message(
    record_size: nat,
    remaining: nat,
    record_number: int,
) -> Seq<char> {
    "Invalid shapefile: truncated record content for record "@ + signed_decimal(record_number)
        + " (need "@ + decimal(record_size) + " bytes, have "@ + decimal(remaining) + ")"@
}

/// Checks that a record starting at `offset` with `record_size` bytes lies inside the buffer.
pub fn validate_record_buffer_space(
    offset: usize,
    record_size: usize,
    buffer_length: usize,
    record_number: i32,
) -> (r: Result<(), ValidationIssue>)
    ensures
        r is Ok <==> offset + record_size <= buffer_length,
        r matches Err(e) ==> is_issue(
            e,
            record_kind(),
            record_buffer_space_message(
                record_size as nat,
                bytes_left(offset as nat, buffer_length as nat),
                record_number as int,
            ),
        ),
{
    if offset > buffer_length || record_size > buffer_length - offset {
        let remaining: usize = if offset <= buffer_length { buffer_length - offset } else { 0 };
        let mut s = String::from_str("Invalid shapefile: truncated record content for record ");
        push_signed(&mut s, record_number as i64);
        s.append(" (need ");
        push_unsigned(&mut s, record_size as u64);
        s.append(" bytes, have ");
        push_unsigned(&mut s, remaining as u64);
        s.append(")");
        assert(s@ =~= record_buffer_space_message(
            record_size as nat,
            bytes_left(offset as nat, buffer_length as nat),
            record_number as int,
        ));
        return Err(plain_issue("record", s));
    }
    Ok(())
}

pub open spec fn parts_and_points_message(shape_type: Seq<char>, num_parts: int, num_points: int) -> Seq<char> {
    "Invalid "@ + shape_type + ": unreasonable number of parts ("@ + signed_decimal(num_parts)
        + ") or points ("@ + signed_decimal(num_points) + ")"@
}

/// Checks that a shape declares at least one part and one point, and no more than the cap of each.
pub fn validate_parts_and_points(num_parts: i32, num_points: i32, shape_type: &str) -> (r: Result<(), ValidationIssue>)
    ensures
        r is Ok <==> 0 < num_parts <= MAX_PARTS_OR_POINTS && 0 < num_points <= MAX_PARTS_OR_POINTS,
        r matches Err(e) ==> is_issue(
            e,
            record_kind(),
            parts_and_points_message(shape_type@, num_parts as int, num_points as int),
        ),
{
    if num_parts <= 0 || num_parts > MAX_PARTS_OR_POINTS || num_points <= 0 || num_points
        > MAX_PARTS_OR_POINTS {
        let mut s = String::from_str("Invalid ");
        s.append(shape_type);
        s.append(": unreasonable number of parts (");
        push_signed(&mut s, num_parts as i64);
        s.append(") or points (");
        push_signed(&mut s, num_points as i64);
        s.append(")");
        assert(s@ =~= parts_and_points_message(shape_type@, num_parts as int, num_points as int));
        return Err(plain_issue("record", s));
    }
    Ok(())
}

pub open spec fn part_index_message(part_index: int, num_points: int) -> Seq<char> {
    "Invalid shapefile: part index "@ + signed_decimal(part_index) + " out of bounds (num points: "@
        + signed_decimal(num_points) + ")"@
}

/// Checks that a part's first point index names one of the shape's points.
pub fn validate_part_index(part_index: i32, num_points: i32) -> (r: Result<(), ValidationIssue>)
    ensures
        r is Ok <==> 0 <= part_index < num_points,
        r matches Err(e) ==> is_issue(
            e,
            record_kind(),
            part_index_message(part_index as int, num_points as int),
        ),
{
    if part_index < 0 || part_index >= num_points {
        let mut s = String::from_str("Invalid shapefile: part index ");
        push_signed(&mut s, part_index as i64);
        s.append(" out of bounds (num points: ");
        push_signed(&mut s, num_points as i64);
        s.append(")");
        assert(s@ =~= part_index_message(part_index as int, num_points as int));
        return Err(plain_issue("record", s));
    }
    Ok(())
}

pub open spec fn part_range_message(start: int, end: int, part_index: int) -> Seq<char> {
    "Invalid shapefile: part "@ + signed_decimal(part_index) + " has invalid range ("@
        + signed_decimal(start) + " >= "@ + signed_decimal(end) + ")"@
}

/// Checks that a part spans at least one point.
pub fn validate_part_range(start: i32, end: i32, part_index: i32) -> (r: Result<(), ValidationIssue>)
    ensures
        r is Ok <==> start < end,
        r matches Err(e) ==> is_issue(
            e,
            record_kind(),
            part_range_message(start as int, end as int, part_index as int),
        ),
{
    if start >= end {
        let mut s = String::from_str("Invalid shapefile: part ");
        push_signed(&mut s, part_index as i64);
        s.append(" has invalid range (");
        push_signed(&mut s, start as i64);
        s.append(" >= ");
        push_signed(&mut s, end as i64);
        s.append(")");
        assert(s@ =~= part_range_message(start as int, end as int, part_index as int));
        return Err(plain_issue("record", s));
    }
    Ok(())
}

/// The shape type codes of the format: null, then point, polyline, polygon and
/// multipoint in plain, Z and M flavours, and multipatch.
pub open spec fn is_known_shape_type(code: u32) -> bool {
    code == 0 || code == 1 || code == 3 || code == 5 || code == 8 || code == 11 || code == 13
        || code == 15 || code == 18 || code == 21 || code == 23 || code == 25 || code == 28
        || code == 31
}

pub open spec fn shape_type_message(code: nat) -> Seq<char> {
    "Invalid shape type: "@ + decimal(code)
}

/// Classifies a shape type code: `Ok(true)` for a geometry-bearing type,
/// `Ok(false)` for the null shape, and an issue for an unknown code.
pub fn validate_shape_type(shape_type: u32) -> (r: Result<bool, ValidationIssue>)
    ensures
        r is Ok <==> is_known_shape_type(shape_type),
        r matches Ok(b) ==> (b <==> shape_type != 0),
        r matches Err(e) ==> is_issue(e, record_kind(), shape_type_message(shape_type as nat)),
{
    match shape_type {
        0 => Ok(false),
        1 | 3 | 5 | 8 => Ok(true),
        11 | 13 | 15 | 18 => Ok(true),
        21 | 23 | 25 | 28 => Ok(true),
        31 => Ok(true),
        _ => {
            let mut s = String::from_str("Invalid shape type: ");
            push_unsigned(&mut s, shape_type as u64);
            assert(s@ =~= shape_type_message(shape_type as nat));
            Err(plain_issue("record", s))
        },
    }
}

} // verus!

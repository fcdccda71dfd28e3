//! Helpers for turning an unparsed remainder of a line into a parse error.

use vstd::prelude::*;
use vstd::string::StringSliceAdditionalSpecFns;

use crate::error::{ParseError, ParseErrorType};

verus! {

/// Convert from from the starting line and remaining line into parse error
///
/// # Arguments
///
/// * `starting_line` - The line before any parsing
/// * `line` - The line remaining after any successful parsing
/// * `line_number` - What line number this line is (used for error reporting)
pub fn into_parse_error(starting_line: &str, line: &str, line_number: usize) -> (r: ParseError)
    requires
        line.spec_bytes().len() <= starting_line.spec_bytes().len(),
        starting_line.spec_bytes().len() >= 1,
    ensures
        r.spec_error_type() == ParseErrorType::InvalidSyntaxRange(
            (starting_line.spec_bytes().len() - line.spec_bytes().len()) as usize,
            (starting_line.spec_bytes().len() - 1) as usize,
        ),
        r.spec_line_number() == line_number,
{
    let error_type = extract_parse_error_type(starting_line, line);
    ParseError::new(error_type, line_number)
}

/// Extracts a syntax error from the starting string and string after parsing.
///
/// The reported range runs from the first unparsable byte through the end of
/// the line: `start` is the number of bytes consumed before parsing stopped,
/// and `end` is the index of the line's last byte (the range is inclusive).
///
/// # Arguments
///
/// * `starting_line` - The line before any parsing
/// * `line` - The line remaining after any successful parsing
pub fn extract_parse_error_type(starting_line: &str, line: &str) -> (r: ParseErrorType)
    requires
        line.spec_bytes().len() <= starting_line.spec_bytes().len(),
        starting_line.spec_bytes().len() >= 1,
    ensures
        r == ParseErrorType::InvalidSyntaxRange(
            (starting_line.spec_bytes().len() - line.spec_bytes().len()) as usize,
            (starting_line.spec_bytes().len() - 1) as usize,
        ),
{
    let starting_bytes = starting_line.as_bytes();
    let remaining_bytes = line.as_bytes();
    let range_start = starting_bytes.len() - remaining_bytes.len();
    let range_end = starting_bytes.len() - 1;

    ParseErrorType::InvalidSyntaxRange(range_start, range_end)
}

} // verus!

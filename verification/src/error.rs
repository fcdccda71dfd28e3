//! The standard error types used to make understanding parse errors easier

use vstd::prelude::*;

verus! {

/// What type of parsing issue was it
#[derive(Debug)]
pub enum ParseErrorType {
    /// Used when a range of syntax is unparsable giving the start and end locations
    InvalidSyntaxRange(usize, usize),
    /// Used when the stitch count is not right giving the found count.  Stitch
    /// counts should go up or down by even numbers from one row to the next.
    InvalidStitchCount(usize),
    /// The passed in reader has errored out; the text describes the underlying
    /// failure.
    UnableToReadFromReader(String),
}

/// The parse error.
///
/// The is the error type returned from all parsing functions.
#[derive(Debug)]
pub struct ParseError {
    error_type: ParseErrorType,
    line_number: usize,
}

impl ParseError {
    /// The kind of failure the error reports.
    pub closed spec fn spec_error_type(&self) -> ParseErrorType {
        self.error_type
    }

    /// The 1-based line number the error was reported for.
    pub closed spec fn spec_line_number(&self) -> usize {
        self.line_number
    }

    /// Creates a new instance.
    ///
    /// # Arguments
    ///
    /// * `error_type` - What type of error it is
    /// * `line_number` - What line did it occure on
    pub fn new(error_type: ParseErrorType, line_number: usize) -> (r: ParseError)
        ensures
            r.spec_error_type() == error_type,
            r.spec_line_number() == line_number,
    {
        ParseError { error_type, line_number }
    }

    /// Returns the contained error type
    pub fn error_type(&self) -> (r: &ParseErrorType)
        ensures
            r == self.spec_error_type(),
    {
        &self.error_type
    }

    /// Returns the contained line number
    pub fn line_number(&self) -> (r: usize)
        ensures
            r == self.spec_line_number(),
    {
        self.line_number
    }
}

} // verus!

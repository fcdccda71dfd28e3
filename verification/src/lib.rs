//! A library for parsing knitting patterns written in a compact textual
//! shorthand (for example `k, p2tog, (yo, k) x3`) into a rectangular grid of
//! typed stitch tokens.
//!
//! One line of shorthand becomes an ordered sequence of [`Stitch`] tokens
//! through [`parse_stitches`]; [`Pattern::new`] reads many lines, applies the
//! `##` directive lines to the pattern's [`Options`], and pads every stitch
//! line symmetrically with [`Stitch::NoStitch`] so the finished [`Pattern`]
//! is a rectangle. Every failure is a [`ParseError`] naming the line and,
//! for syntax errors, the exact byte range at fault.

mod canon;
mod error;
mod options;
mod parse_line;
mod pattern;
mod side;
mod stitches;
mod util;

pub use canon::canonical_line;
pub use error::{ParseError, ParseErrorType};
pub use options::Options;
pub use parse_line::parse_stitches;
pub use pattern::{calculate_line_width, widths_fit, Pattern};
pub use side::Side;
pub use stitches::Stitch;
pub use util::{extract_parse_error_type, into_parse_error};

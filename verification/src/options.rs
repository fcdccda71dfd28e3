//! Additional options that can be set on a pattern.
//!
//! A directive line starts with the two-byte marker `##`. After the marker it
//! may hold any number of directives, in any order, separated by insignificant
//! whitespace: the keyword `in_round` (work the pattern in the round), the
//! keyword `start_wrong_side` (start on the wrong side instead of the right
//! side), and an assignment `first_line=<decimal integer>` overriding the
//! number of the first displayed line. Each is applied in turn to the options
//! record; an empty remainder changes nothing. Anything else on the line is a
//! syntax error whose reported range runs from the first byte after the marker
//! through the end of the line.

use vstd::prelude::*;
use vstd::string::StringSliceAdditionalSpecFns;

use crate::error::{ParseError, ParseErrorType};
use crate::parse_line::{
    lemma_skip_space_bounds, lemma_slice_len_bound, lit_match, match_at, scan_number, skip_space,
    spec_digits_end, spec_digits_val, spec_skip_space,
};
use crate::side::Side;

verus! {

broadcast use vstd::slice::axiom_spec_len;

/// The options for a pattern.
#[derive(Debug, Clone, Copy)]
pub struct Options {
    /// What the first line should be labeled.
    pub first_line_number: usize,
    /// What side to start with.
    pub starting_side: Side,
    /// If the pattern is in the round.
    pub in_round: bool,
}

/// The options every pattern starts from: the first line is labeled 1, work
/// starts on the right side, and the pattern is worked flat.
pub open spec fn spec_default_options() -> Options {
    Options { first_line_number: 1, starting_side: Side::RS, in_round: false }
}

impl Default for Options {
    fn default() -> (r: Self)
        ensures
            r == spec_default_options(),
    {
        let first_line_number: usize = 1;
        let starting_side = Side::RS;
        let in_round = false;
        Options { first_line_number, starting_side, in_round }
    }
}

/// The keyword enabling "in the round" mode.
pub open spec fn lit_in_round() -> Seq<u8> {
    seq![
        'i' as u8,
        'n' as u8,
        '_' as u8,
        'r' as u8,
        'o' as u8,
        'u' as u8,
        'n' as u8,
        'd' as u8,
    ]
}

/// The key of the assignment overriding the first displayed line number.
pub open spec fn lit_first_line() -> Seq<u8> {
    seq![
        'f' as u8,
        'i' as u8,
        'r' as u8,
        's' as u8,
        't' as u8,
        '_' as u8,
        'l' as u8,
        'i' as u8,
        'n' as u8,
        'e' as u8,
        '=' as u8,
    ]
}

/// The keyword forcing the starting side to the wrong side.
pub open spec fn lit_start_wrong() -> Seq<u8> {
    seq![
        's' as u8,
        't' as u8,
        'a' as u8,
        'r' as u8,
        't' as u8,
        '_' as u8,
        'w' as u8,
        'r' as u8,
        'o' as u8,
        'n' as u8,
        'g' as u8,
        '_' as u8,
        's' as u8,
        'i' as u8,
        'd' as u8,
        'e' as u8,
    ]
}

/// After a recognized directive only the end of the line or a line ending
/// (a bare newline, or a carriage return followed by a newline) may follow.
pub open spec fn spec_ends_ok(s: Seq<u8>, i: int) -> bool {
    ||| i == s.len()
    ||| (0 <= i < s.len() && s[i] == '\n' as u8)
    ||| (0 <= i && i + 1 < s.len() && s[i] == '\r' as u8 && s[i + 1] == '\n' as u8)
}

/// The directives from position `i` on, applied in turn to the options:
/// whitespace is skipped, and every recognized directive sets its option and
/// hands the rest of the line on, until only the end of the line (or a line
/// ending) remains. `None` means unrecognized content was hit. A first-line
/// number whose value does not fit the machine's `usize` is not accepted.
///
/// The first guard only makes termination evident; skipping whitespace never
/// moves backwards nor past the end (see [`lemma_skip_space_bounds`]), and a
/// matched keyword moves strictly forward.
pub open spec fn spec_directives(opts: Options, s: Seq<u8>, i: int) -> Option<Options>
    decreases s.len() - i,
{
    let j = spec_skip_space(s, i);
    if j < i || s.len() < j {
        None
    } else if spec_ends_ok(s, j) {
        Some(opts)
    } else if match_at(s, j, lit_in_round()) {
        spec_directives(
            Options {
                first_line_number: opts.first_line_number,
                starting_side: opts.starting_side,
                in_round: true,
            },
            s,
            j + lit_in_round().len(),
        )
    } else if match_at(s, j, lit_first_line()) {
        let d = spec_digits_end(s, j + lit_first_line().len());
        let v = spec_digits_val(s, j + lit_first_line().len(), d);
        if j + lit_first_line().len() < d <= s.len() && v <= usize::MAX {
            spec_directives(
                Options {
                    first_line_number: v as usize,
                    starting_side: opts.starting_side,
                    in_round: opts.in_round,
                },
                s,
                d,
            )
        } else {
            None
        }
    } else if match_at(s, j, lit_start_wrong()) {
        spec_directives(
            Options {
                first_line_number: opts.first_line_number,
                starting_side: Side::WS,
                in_round: opts.in_round,
            },
            s,
            j + lit_start_wrong().len(),
        )
    } else {
        None
    }
}

/// The effect of one whole directive line on the options. The line is the
/// whole line, marker included; `None` means some of its content after the
/// marker is not recognized directive content.
pub open spec fn spec_options_apply(opts: Options, s: Seq<u8>) -> Option<Options> {
    spec_directives(opts, s, 2)
}

/// The keyword enabling "in the round" mode, as bytes.
fn kw_in_round() -> (r: Vec<u8>)
    ensures
        r@ == lit_in_round(),
{
    let mut v: Vec<u8> = Vec::new();
    v.push('i' as u8);
    v.push('n' as u8);
    v.push('_' as u8);
    v.push('r' as u8);
    v.push('o' as u8);
    v.push('u' as u8);
    v.push('n' as u8);
    v.push('d' as u8);
    assert(v@ =~= lit_in_round());
    v
}

/// The key of the first-line assignment, as bytes.
fn kw_first_line() -> (r: Vec<u8>)
    ensures
        r@ == lit_first_line(),
{
    let mut v: Vec<u8> = Vec::new();
    v.push('f' as u8);
    v.push('i' as u8);
    v.push('r' as u8);
    v.push('s' as u8);
    v.push('t' as u8);
    v.push('_' as u8);
    v.push('l' as u8);
    v.push('i' as u8);
    v.push('n' as u8);
    v.push('e' as u8);
    v.push('=' as u8);
    assert(v@ =~= lit_first_line());
    v
}

/// The keyword forcing the starting side, as bytes.
fn kw_start_wrong() -> (r: Vec<u8>)
    ensures
        r@ == lit_start_wrong(),
{
    let mut v: Vec<u8> = Vec::new();
    v.push('s' as u8);
    v.push('t' as u8);
    v.push('a' as u8);
    v.push('r' as u8);
    v.push('t' as u8);
    v.push('_' as u8);
    v.push('w' as u8);
    v.push('r' as u8);
    v.push('o' as u8);
    v.push('n' as u8);
    v.push('g' as u8);
    v.push('_' as u8);
    v.push('s' as u8);
    v.push('i' as u8);
    v.push('d' as u8);
    v.push('e' as u8);
    assert(v@ =~= lit_start_wrong());
    v
}

/// Whether only the end of the line or a line ending follows position `i`.
fn ends_ok(s: &[u8], i: usize) -> (r: bool)
    requires
        i <= s@.len(),
    ensures
        r == spec_ends_ok(s@, i as int),
{
    if i == s.len() {
        true
    } else if s[i] == '\n' as u8 {
        true
    } else {
        s[i] == '\r' as u8 && i + 1 < s.len() && s[i + 1] == '\n' as u8
    }
}

/// Applies the directives from position `i` on to the options, mirroring
/// [`spec_directives`].
fn apply_directives(opts: Options, s: &[u8], i: usize) -> (r: Option<Options>)
    requires
        i <= s@.len(),
    ensures
        r == spec_directives(opts, s@, i as int),
    decreases s@.len() - i,
{
    proof {
        lemma_slice_len_bound(s);
    }
    let j = skip_space(s, i);
    if ends_ok(s, j) {
        Some(opts)
    } else if lit_match(s, j, &kw_in_round()) {
        let set = Options {
            first_line_number: opts.first_line_number,
            starting_side: opts.starting_side,
            in_round: true,
        };
        apply_directives(set, s, j + 8)
    } else if lit_match(s, j, &kw_first_line()) {
        let (d, v) = scan_number(s, j + 11);
        if d > j + 11 {
            match v {
                Some(val) => {
                    let set = Options {
                        first_line_number: val,
                        starting_side: opts.starting_side,
                        in_round: opts.in_round,
                    };
                    apply_directives(set, s, d)
                },
                None => None,
            }
        } else {
            None
        }
    } else if lit_match(s, j, &kw_start_wrong()) {
        let set = Options {
            first_line_number: opts.first_line_number,
            starting_side: Side::WS,
            in_round: opts.in_round,
        };
        apply_directives(set, s, j + 16)
    } else {
        None
    }
}

impl Options {
    /// Parse the options from the given line.
    ///
    /// The line must start with the two-byte `##` directive marker. On success
    /// every directive the line holds (perhaps none) has been applied to the
    /// options, in order; on failure the options are unchanged and the error
    /// reports the byte range from just after the marker through the end of
    /// the line, tagged with `line_number`.
    pub fn parse_options(&mut self, line: &str, line_number: usize) -> (r: Result<(), ParseError>)
        requires
            line.spec_bytes().len() >= 2,
            line.spec_bytes()[0] == '#' as u8,
            line.spec_bytes()[1] == '#' as u8,
        ensures
            ({
                let m = spec_options_apply(*old(self), line.spec_bytes());
                match r {
                    Ok(_) => m matches Some(applied) && *final(self) == applied,
                    Err(e) => m is None && *final(self) == *old(self) && e.spec_error_type()
                        == ParseErrorType::InvalidSyntaxRange(
                        2,
                        (line.spec_bytes().len() - 1) as usize,
                    ) && e.spec_line_number() == line_number,
                }
            }),
    {
        let s = line.as_bytes();
        proof {
            lemma_slice_len_bound(s);
        }
        match apply_directives(*self, s, 2) {
            Some(applied) => {
                *self = applied;
                Ok(())
            },
            None => Err(
                ParseError::new(
                    ParseErrorType::InvalidSyntaxRange(2, s.len() - 1),
                    line_number,
                ),
            ),
        }
    }
}

} // verus!

//! The line grammar parser: turns one line of shorthand text into an ordered
//! sequence of stitch tokens.
//!
//! The grammar, with whitespace (spaces and tabs) insignificant around every
//! token, comma and parenthesis:
//!
//! ```text
//! line        := group_list
//! group_list  := element ("," element)*
//! element     := group | stitch_token
//! group       := "(" group_list ")" multiplier?
//! stitch_token:= <one of the stitch names> multiplier?
//! multiplier  := "x" <one or more decimal digits>
//! ```
//!
//! A trailing `x<N>` repeats the preceding token, or the flattened contents of
//! the preceding group, `N` times; expansion is eager, so the output already
//! contains the fully unrolled tokens. A list stops before the first comma
//! that is not followed by a parsable element; the line as a whole parses only
//! if every byte was consumed, and otherwise the unconsumed suffix is reported
//! as a [`ParseErrorType::InvalidSyntaxRange`].
//!
//! The whole grammar is modelled by the `spec_` functions below, which give
//! the position where each production stops and the tokens it yields; the
//! executable parser is proved to return exactly what the model says.

use vstd::prelude::*;
use vstd::string::StringSliceAdditionalSpecFns;

use std::collections::VecDeque;

use crate::error::{ParseError, ParseErrorType};
use crate::stitches::Stitch;

verus! {

broadcast use vstd::slice::axiom_spec_len;

/// The view of a byte slice fits the machine's `usize`.
pub(crate) proof fn lemma_slice_len_bound(s: &[u8])
    ensures
        s@.len() <= usize::MAX,
{
    assert(vstd::slice::spec_slice_len(s) == s@.len());
}

/// Insignificant whitespace: a space or a tab.
pub open spec fn is_space(b: u8) -> bool {
    b == ' ' as u8 || b == '\t' as u8
}

/// A decimal digit byte.
pub open spec fn is_digit(b: u8) -> bool {
    '0' as u8 <= b <= '9' as u8
}

/// `lit` occurs in `s` starting exactly at byte position `i`.
pub open spec fn match_at(s: Seq<u8>, i: int, lit: Seq<u8>) -> bool {
    &&& 0 <= i
    &&& i + lit.len() <= s.len()
    &&& forall|j: int| 0 <= j < lit.len() ==> s[i + j] == lit[j]
}

/// The first position at or after `i` that does not hold insignificant
/// whitespace (the end of the sequence when only whitespace remains).
pub open spec fn spec_skip_space(s: Seq<u8>, i: int) -> int
    decreases s.len() - i,
{
    if 0 <= i < s.len() && is_space(s[i]) {
        spec_skip_space(s, i + 1)
    } else {
        i
    }
}

/// The first position at or after `i` that does not hold a decimal digit.
pub open spec fn spec_digits_end(s: Seq<u8>, i: int) -> int
    decreases s.len() - i,
{
    if 0 <= i < s.len() && is_digit(s[i]) {
        spec_digits_end(s, i + 1)
    } else {
        i
    }
}

/// The value of the run of decimal digits `s[i..j]`.
pub open spec fn spec_digits_val(s: Seq<u8>, i: int, j: int) -> int
    decreases j - i,
{
    if i < j {
        spec_digits_val(s, i, j - 1) * 10 + (s[j - 1] - '0' as u8)
    } else {
        0
    }
}

/// The stitch token at position `i`, if any. Alternatives are tried in a
/// fixed priority order, the longest or most specific name of each shared
/// prefix first, so that for example `k2tog` is never mis-consumed as a bare
/// `k` followed by a dangling `2tog`.
pub open spec fn spec_stitch_token(s: Seq<u8>, i: int) -> Option<Stitch> {
    if match_at(s, i, Stitch::Lcf1.spec_name()) {
        Some(Stitch::Lcf1)
    } else if match_at(s, i, Stitch::Rcb1.spec_name()) {
        Some(Stitch::Rcb1)
    } else if match_at(s, i, Stitch::Lcf2.spec_name()) {
        Some(Stitch::Lcf2)
    } else if match_at(s, i, Stitch::Rcb2.spec_name()) {
        Some(Stitch::Rcb2)
    } else if match_at(s, i, Stitch::Lcf3.spec_name()) {
        Some(Stitch::Lcf3)
    } else if match_at(s, i, Stitch::Rcb3.spec_name()) {
        Some(Stitch::Rcb3)
    } else if match_at(s, i, Stitch::Lcf4.spec_name()) {
        Some(Stitch::Lcf4)
    } else if match_at(s, i, Stitch::Rcb4.spec_name()) {
        Some(Stitch::Rcb4)
    } else if match_at(s, i, Stitch::Bead.spec_name()) {
        Some(Stitch::Bead)
    } else if match_at(s, i, Stitch::Bobble.spec_name()) {
        Some(Stitch::Bobble)
    } else if match_at(s, i, Stitch::Bo.spec_name()) {
        Some(Stitch::Bo)
    } else if match_at(s, i, Stitch::Ktbl.spec_name()) {
        Some(Stitch::Ktbl)
    } else if match_at(s, i, Stitch::Kbf.spec_name()) {
        Some(Stitch::Kbf)
    } else if match_at(s, i, Stitch::Kfb.spec_name()) {
        Some(Stitch::Kfb)
    } else if match_at(s, i, Stitch::K2Tog.spec_name()) {
        Some(Stitch::K2Tog)
    } else if match_at(s, i, Stitch::K.spec_name()) {
        Some(Stitch::K)
    } else if match_at(s, i, Stitch::MPwise.spec_name()) {
        Some(Stitch::MPwise)
    } else if match_at(s, i, Stitch::MKwise.spec_name()) {
        Some(Stitch::MKwise)
    } else if match_at(s, i, Stitch::Ml.spec_name()) {
        Some(Stitch::Ml)
    } else if match_at(s, i, Stitch::Mr.spec_name()) {
        Some(Stitch::Mr)
    } else if match_at(s, i, Stitch::Ptbl.spec_name()) {
        Some(Stitch::Ptbl)
    } else if match_at(s, i, Stitch::Pbf.spec_name()) {
        Some(Stitch::Pbf)
    } else if match_at(s, i, Stitch::Pfb.spec_name()) {
        Some(Stitch::Pfb)
    } else if match_at(s, i, Stitch::P2Tog.spec_name()) {
        Some(Stitch::P2Tog)
    } else if match_at(s, i, Stitch::P.spec_name()) {
        Some(Stitch::P)
    } else if match_at(s, i, Stitch::SlPwise.spec_name()) {
        Some(Stitch::SlPwise)
    } else if match_at(s, i, Stitch::SlKwise.spec_name()) {
        Some(Stitch::SlKwise)
    } else if match_at(s, i, Stitch::Ssp.spec_name()) {
        Some(Stitch::Ssp)
    } else if match_at(s, i, Stitch::Ssk.spec_name()) {
        Some(Stitch::Ssk)
    } else if match_at(s, i, Stitch::NoStitch.spec_name()) {
        Some(Stitch::NoStitch)
    } else if match_at(s, i, Stitch::Yo.spec_name()) {
        Some(Stitch::Yo)
    } else {
        None
    }
}

/// The multiplier at position `i`: the letter `x` followed by one or more
/// decimal digits. The position after the digits and the value are returned.
/// A digit run whose value does not fit the machine's `usize` is not taken as
/// a multiplier, so that expansion counts are always representable.
pub open spec fn spec_multiplier(s: Seq<u8>, i: int) -> Option<(int, int)> {
    if 0 <= i < s.len() && s[i] == 'x' as u8 {
        let d = spec_digits_end(s, i + 1);
        let v = spec_digits_val(s, i + 1, d);
        if d > i + 1 && v <= usize::MAX {
            Some((d, v))
        } else {
            None
        }
    } else {
        None
    }
}

/// `items` concatenated `n` times (empty when `n <= 0`).
pub open spec fn repeat_seq(items: Seq<Stitch>, n: int) -> Seq<Stitch>
    decreases n,
{
    if n <= 0 {
        Seq::empty()
    } else {
        repeat_seq(items, n - 1) + items
    }
}

/// A single stitch token element: optional whitespace, the token, optional
/// whitespace, and an optional multiplier repeating the token. Whitespace is
/// insignificant around every part, so it is consumed after the multiplier's
/// digits too.
pub open spec fn spec_stitch_elem(s: Seq<u8>, i: int) -> Option<(int, Seq<Stitch>)> {
    let j = spec_skip_space(s, i);
    match spec_stitch_token(s, j) {
        None => None,
        Some(st) => {
            let k = spec_skip_space(s, j + st.spec_name().len());
            match spec_multiplier(s, k) {
                Some((p, n)) => Some((spec_skip_space(s, p), repeat_seq(seq![st], n))),
                None => Some((k, seq![st])),
            }
        },
    }
}

/// A parenthesized group: its comma-separated contents flattened, repeated by
/// the optional trailing multiplier.
///
/// The guards `i <= j` and `i < p` only make termination evident; they hold
/// on every path (see [`lemma_element_progress`]).
pub open spec fn spec_group(s: Seq<u8>, i: int) -> Option<(int, Seq<Stitch>)>
    decreases s.len() - i, 0int,
{
    let j = spec_skip_space(s, i);
    if i <= j < s.len() && s[j] == '(' as u8 {
        let (p, items) = spec_group_list(s, j + 1);
        let q = spec_skip_space(s, p);
        if q < s.len() && s[q] == ')' as u8 {
            let after = spec_skip_space(s, q + 1);
            match spec_multiplier(s, after) {
                Some((p2, n)) => Some((spec_skip_space(s, p2), repeat_seq(items, n))),
                None => Some((after, items)),
            }
        } else {
            None
        }
    } else {
        None
    }
}

/// One element of a list: a group if one starts here, else a stitch token.
pub open spec fn spec_element(s: Seq<u8>, i: int) -> Option<(int, Seq<Stitch>)>
    decreases s.len() - i, 1int,
{
    match spec_group(s, i) {
        Some(r) => Some(r),
        None => spec_stitch_elem(s, i),
    }
}

/// A comma-separated list of elements, starting at `i`. The list never fails:
/// when no element can be parsed it is empty and consumes nothing, and it
/// stops before the first comma that is not followed by a parsable element.
pub open spec fn spec_group_list(s: Seq<u8>, i: int) -> (int, Seq<Stitch>)
    decreases s.len() - i, 2int,
{
    match spec_element(s, i) {
        None => (i, Seq::empty()),
        Some((p, items)) => {
            if i < p <= s.len() {
                spec_group_list_more(s, p, items)
            } else {
                (p, items)
            }
        },
    }
}

/// The continuation of a list after at least one element: as long as a comma
/// followed by an element is found, the element's tokens are appended.
pub open spec fn spec_group_list_more(s: Seq<u8>, i: int, acc: Seq<Stitch>) -> (int, Seq<Stitch>)
    decreases s.len() - i, 2int,
{
    if 0 <= i < s.len() && s[i] == ',' as u8 {
        match spec_element(s, i + 1) {
            None => (i, acc),
            Some((p, items)) => {
                if i < p <= s.len() {
                    spec_group_list_more(s, p, acc + items)
                } else {
                    (i, acc)
                }
            },
        }
    } else {
        (i, acc)
    }
}

/// The result of parsing one full line: the position where the list stopped
/// and the tokens parsed up to there. The line is valid exactly when the
/// position equals the line's length.
pub open spec fn spec_parse_line(s: Seq<u8>) -> (int, Seq<Stitch>) {
    spec_group_list(s, 0)
}

/// Skipping whitespace never moves backwards nor past the end.
pub proof fn lemma_skip_space_bounds(s: Seq<u8>, i: int)
    requires
        0 <= i <= s.len(),
    ensures
        i <= spec_skip_space(s, i) <= s.len(),
    decreases s.len() - i,
{
    if i < s.len() && is_space(s[i]) {
        lemma_skip_space_bounds(s, i + 1);
    }
}

/// A digit run never moves backwards nor past the end.
pub proof fn lemma_digits_end_bounds(s: Seq<u8>, i: int)
    requires
        0 <= i <= s.len(),
    ensures
        i <= spec_digits_end(s, i) <= s.len(),
    decreases s.len() - i,
{
    if i < s.len() && is_digit(s[i]) {
        lemma_digits_end_bounds(s, i + 1);
    }
}

/// Every byte of a digit run is a digit.
pub proof fn lemma_digits_end_digits(s: Seq<u8>, i: int)
    requires
        0 <= i <= s.len(),
    ensures
        forall|k: int| i <= k < spec_digits_end(s, i) ==> is_digit(s[k]),
    decreases s.len() - i,
{
    if i < s.len() && is_digit(s[i]) {
        lemma_digits_end_digits(s, i + 1);
    }
}

/// The value of a digit run is never negative.
pub proof fn lemma_digits_val_nonneg(s: Seq<u8>, i: int, j: int)
    requires
        forall|k: int| i <= k < j ==> is_digit(s[k]),
    ensures
        spec_digits_val(s, i, j) >= 0,
    decreases j - i,
{
    if i < j {
        lemma_digits_val_nonneg(s, i, j - 1);
    }
}

/// A matched token occupies `i` up to `i` plus its name's length, and every
/// name has at least one byte.
pub proof fn lemma_token_match(s: Seq<u8>, i: int, st: Stitch)
    requires
        spec_stitch_token(s, i) == Some(st),
    ensures
        match_at(s, i, st.spec_name()),
        1 <= st.spec_name().len(),
        i + st.spec_name().len() <= s.len(),
{
}

/// A matched multiplier moves strictly forward, stays inside the line, and
/// its value fits the machine's `usize`.
pub proof fn lemma_multiplier_bounds(s: Seq<u8>, i: int)
    requires
        0 <= i <= s.len(),
    ensures
        spec_multiplier(s, i) matches Some(r) ==> i < r.0 <= s.len() && 0 <= r.1
            <= usize::MAX,
{
    if i < s.len() && s[i] == 'x' as u8 {
        lemma_digits_end_bounds(s, i + 1);
        lemma_digits_end_digits(s, i + 1);
        let d = spec_digits_end(s, i + 1);
        lemma_digits_val_nonneg(s, i + 1, d);
    }
}

/// A parsed element, group or stitch element moves strictly forward and stays
/// inside the line.
pub proof fn lemma_element_progress(s: Seq<u8>, i: int)
    requires
        0 <= i <= s.len(),
    ensures
        spec_element(s, i) matches Some(r) ==> i < r.0 <= s.len(),
        spec_group(s, i) matches Some(r) ==> i < r.0 <= s.len(),
        spec_stitch_elem(s, i) matches Some(r) ==> i < r.0 <= s.len(),
    decreases s.len() - i, 1int,
{
    lemma_skip_space_bounds(s, i);
    let j = spec_skip_space(s, i);
    // The group alternative.
    if j < s.len() && s[j] == '(' as u8 {
        lemma_group_list_progress(s, j + 1);
        let (p, items) = spec_group_list(s, j + 1);
        lemma_skip_space_bounds(s, p);
        let q = spec_skip_space(s, p);
        if q < s.len() && s[q] == ')' as u8 {
            lemma_skip_space_bounds(s, q + 1);
            let after = spec_skip_space(s, q + 1);
            lemma_multiplier_bounds(s, after);
            match spec_multiplier(s, after) {
                None => {},
                Some((p2, n)) => {
                    lemma_skip_space_bounds(s, p2);
                },
            }
        }
    }
    // The stitch token alternative.
    match spec_stitch_token(s, j) {
        None => {},
        Some(st) => {
            lemma_token_match(s, j, st);
            lemma_skip_space_bounds(s, j + st.spec_name().len());
            let k = spec_skip_space(s, j + st.spec_name().len());
            lemma_multiplier_bounds(s, k);
            match spec_multiplier(s, k) {
                None => {},
                Some((p, n)) => {
                    lemma_skip_space_bounds(s, p);
                },
            }
        },
    }
}

/// A parsed list never moves backwards and stays inside the line.
pub proof fn lemma_group_list_progress(s: Seq<u8>, i: int)
    requires
        0 <= i <= s.len(),
    ensures
        i <= spec_group_list(s, i).0 <= s.len(),
    decreases s.len() - i, 2int,
{
    lemma_element_progress(s, i);
    match spec_element(s, i) {
        None => {},
        Some((p, items)) => {
            lemma_group_list_more_progress(s, p, items);
        },
    }
}

/// The continuation of a list never moves backwards and stays inside the
/// line.
pub proof fn lemma_group_list_more_progress(s: Seq<u8>, i: int, acc: Seq<Stitch>)
    requires
        0 <= i <= s.len(),
    ensures
        i <= spec_group_list_more(s, i, acc).0 <= s.len(),
    decreases s.len() - i, 2int,
{
    if i < s.len() && s[i] == ',' as u8 {
        lemma_element_progress(s, i + 1);
        match spec_element(s, i + 1) {
            None => {},
            Some((p, items)) => {
                if i < p <= s.len() {
                    lemma_group_list_more_progress(s, p, acc + items);
                }
            },
        }
    }
}

/// The executable result of a sub-parse agrees with what the model says: both
/// fail, or both stop at the same position with the same tokens.
pub open spec fn elem_corresponds(
    r: Option<(usize, Vec<Stitch>)>,
    m: Option<(int, Seq<Stitch>)>,
) -> bool {
    match (r, m) {
        (Option::None, Option::None) => true,
        (Option::Some(e), Option::Some(q)) => e.0 == q.0 && e.1@ == q.1,
        _ => false,
    }
}

/// Advances past insignificant whitespace.
#[verifier::loop_isolation(false)]
pub(crate) fn skip_space(s: &[u8], i: usize) -> (r: usize)
    requires
        i <= s@.len(),
    ensures
        r == spec_skip_space(s@, i as int),
        i <= r <= s@.len(),
{
    let mut j = i;
    while j < s.len() && (s[j] == ' ' as u8 || s[j] == '\t' as u8)
        invariant
            i <= j <= s@.len(),
            spec_skip_space(s@, i as int) == spec_skip_space(s@, j as int),
        decreases s@.len() - j,
    {
        j = j + 1;
    }
    j
}

/// Whether `lit` occurs in `s` starting exactly at position `i`.
#[verifier::loop_isolation(false)]
pub(crate) fn lit_match(s: &[u8], i: usize, lit: &Vec<u8>) -> (r: bool)
    requires
        i <= s@.len(),
    ensures
        r == match_at(s@, i as int, lit@),
{
    if s.len() - i < lit.len() {
        return false;
    }
    let mut j: usize = 0;
    while j < lit.len()
        invariant
            0 <= j <= lit@.len(),
            i + lit@.len() <= s@.len(),
            forall|k: int| 0 <= k < j ==> s@[i + k] == lit@[k],
        decreases lit@.len() - j,
    {
        if s[i + j] != lit[j] {
            assert(s@[i as int + j as int] != lit@[j as int]);
            return false;
        }
        j += 1;
    }
    true
}

/// The stitch token at position `i`, if any, tried in the same priority order
/// as [`spec_stitch_token`].
fn try_token(s: &[u8], i: usize) -> (r: Option<Stitch>)
    requires
        i <= s@.len(),
    ensures
        r == spec_stitch_token(s@, i as int),
{
    if lit_match(s, i, &Stitch::Lcf1.name()) {
        Some(Stitch::Lcf1)
    } else if lit_match(s, i, &Stitch::Rcb1.name()) {
        Some(Stitch::Rcb1)
    } else if lit_match(s, i, &Stitch::Lcf2.name()) {
        Some(Stitch::Lcf2)
    } else if lit_match(s, i, &Stitch::Rcb2.name()) {
        Some(Stitch::Rcb2)
    } else if lit_match(s, i, &Stitch::Lcf3.name()) {
        Some(Stitch::Lcf3)
    } else if lit_match(s, i, &Stitch::Rcb3.name()) {
        Some(Stitch::Rcb3)
    } else if lit_match(s, i, &Stitch::Lcf4.name()) {
        Some(Stitch::Lcf4)
    } else if lit_match(s, i, &Stitch::Rcb4.name()) {
        Some(Stitch::Rcb4)
    } else if lit_match(s, i, &Stitch::Bead.name()) {
        Some(Stitch::Bead)
    } else if lit_match(s, i, &Stitch::Bobble.name()) {
        Some(Stitch::Bobble)
    } else if lit_match(s, i, &Stitch::Bo.name()) {
        Some(Stitch::Bo)
    } else if lit_match(s, i, &Stitch::Ktbl.name()) {
        Some(Stitch::Ktbl)
    } else if lit_match(s, i, &Stitch::Kbf.name()) {
        Some(Stitch::Kbf)
    } else if lit_match(s, i, &Stitch::Kfb.name()) {
        Some(Stitch::Kfb)
    } else if lit_match(s, i, &Stitch::K2Tog.name()) {
        Some(Stitch::K2Tog)
    } else if lit_match(s, i, &Stitch::K.name()) {
        Some(Stitch::K)
    } else if lit_match(s, i, &Stitch::MPwise.name()) {
        Some(Stitch::MPwise)
    } else if lit_match(s, i, &Stitch::MKwise.name()) {
        Some(Stitch::MKwise)
    } else if lit_match(s, i, &Stitch::Ml.name()) {
        Some(Stitch::Ml)
    } else if lit_match(s, i, &Stitch::Mr.name()) {
        Some(Stitch::Mr)
    } else if lit_match(s, i, &Stitch::Ptbl.name()) {
        Some(Stitch::Ptbl)
    } else if lit_match(s, i, &Stitch::Pbf.name()) {
        Some(Stitch::Pbf)
    } else if lit_match(s, i, &Stitch::Pfb.name()) {
        Some(Stitch::Pfb)
    } else if lit_match(s, i, &Stitch::P2Tog.name()) {
        Some(Stitch::P2Tog)
    } else if lit_match(s, i, &Stitch::P.name()) {
        Some(Stitch::P)
    } else if lit_match(s, i, &Stitch::SlPwise.name()) {
        Some(Stitch::SlPwise)
    } else if lit_match(s, i, &Stitch::SlKwise.name()) {
        Some(Stitch::SlKwise)
    } else if lit_match(s, i, &Stitch::Ssp.name()) {
        Some(Stitch::Ssp)
    } else if lit_match(s, i, &Stitch::Ssk.name()) {
        Some(Stitch::Ssk)
    } else if lit_match(s, i, &Stitch::NoStitch.name()) {
        Some(Stitch::NoStitch)
    } else if lit_match(s, i, &Stitch::Yo.name()) {
        Some(Stitch::Yo)
    } else {
        None
    }
}

/// Scans the digit run starting at `i` and computes its value; the value is
/// reported as absent when it does not fit a `usize`.
#[verifier::loop_isolation(false)]
pub(crate) fn scan_number(s: &[u8], i: usize) -> (r: (usize, Option<usize>))
    requires
        i <= s@.len(),
    ensures
        r.0 == spec_digits_end(s@, i as int),
        i <= r.0 <= s@.len(),
        match r.1 {
            Some(v) => v == spec_digits_val(s@, i as int, r.0 as int),
            None => spec_digits_val(s@, i as int, r.0 as int) > usize::MAX,
        },
{
    proof {
        lemma_digits_end_bounds(s@, i as int);
    }
    let mut j = i;
    let mut val: usize = 0;
    let mut fits = true;
    while j < s.len() && '0' as u8 <= s[j] && s[j] <= '9' as u8
        invariant
            i <= j <= s@.len(),
            spec_digits_end(s@, i as int) == spec_digits_end(s@, j as int),
            fits ==> val == spec_digits_val(s@, i as int, j as int),
            !fits ==> spec_digits_val(s@, i as int, j as int) > usize::MAX,
        decreases s@.len() - j,
    {
        let digit = s[j] - '0' as u8;
        if fits {
            match val.checked_mul(10) {
                Some(v10) => {
                    match v10.checked_add(digit as usize) {
                        Some(v) => {
                            val = v;
                        },
                        None => {
                            fits = false;
                        },
                    }
                },
                None => {
                    fits = false;
                },
            }
        } else {
            proof {
                // The value can only grow as the run extends.
                assert(spec_digits_val(s@, i as int, j + 1) == spec_digits_val(
                    s@,
                    i as int,
                    j as int,
                ) * 10 + digit);
            }
        }
        j += 1;
    }
    if fits {
        (j, Some(val))
    } else {
        (j, None)
    }
}

/// The multiplier at position `i`, if any: `x` followed by decimal digits
/// whose value fits a `usize`.
fn parse_multiplier(s: &[u8], i: usize) -> (r: Option<(usize, usize)>)
    requires
        i <= s@.len(),
    ensures
        match (r, spec_multiplier(s@, i as int)) {
            (Option::None, Option::None) => true,
            (Option::Some(e), Option::Some(m)) => e.0 == m.0 && e.1 == m.1,
            _ => false,
        },
        r matches Some(e) ==> i < e.0 <= s@.len(),
{
    if i < s.len() && s[i] == 'x' as u8 {
        let (d, v) = scan_number(s, i + 1);
        if d > i + 1 {
            match v {
                Some(val) => Some((d, val)),
                None => None,
            }
        } else {
            None
        }
    } else {
        None
    }
}

/// A single stitch token element with its optional multiplier.
#[verifier::loop_isolation(false)]
fn parse_stitch_elem(s: &[u8], i: usize) -> (r: Option<(usize, Vec<Stitch>)>)
    requires
        i <= s@.len(),
    ensures
        elem_corresponds(r, spec_stitch_elem(s@, i as int)),
{
    let j = skip_space(s, i);
    match try_token(s, j) {
        None => None,
        Some(st) => {
            proof {
                lemma_token_match(s@, j as int, st);
                lemma_slice_len_bound(s);
            }
            let name = st.name();
            let k = skip_space(s, j + name.len());
            match parse_multiplier(s, k) {
                Some((p, n)) => {
                    let mut out: Vec<Stitch> = Vec::new();
                    let mut c: usize = 0;
                    while c < n
                        invariant
                            c <= n,
                            out@ == repeat_seq(seq![st], c as int),
                        decreases n - c,
                    {
                        out.push(st);
                        proof {
                            assert(out@ =~= repeat_seq(seq![st], c + 1));
                        }
                        c += 1;
                    }
                    let end = skip_space(s, p);
                    Some((end, out))
                },
                None => {
                    let mut out: Vec<Stitch> = Vec::new();
                    out.push(st);
                    assert(out@ =~= seq![st]);
                    Some((k, out))
                },
            }
        },
    }
}

/// A parenthesized group with its optional multiplier.
#[verifier::loop_isolation(false)]
fn parse_group(s: &[u8], i: usize) -> (r: Option<(usize, Vec<Stitch>)>)
    requires
        i <= s@.len(),
    ensures
        elem_corresponds(r, spec_group(s@, i as int)),
    decreases s@.len() - i, 0int,
{
    let j = skip_space(s, i);
    if j < s.len() && s[j] == '(' as u8 {
        let (p, items) = parse_group_list(s, j + 1);
        let q = skip_space(s, p);
        if q < s.len() && s[q] == ')' as u8 {
            let after = skip_space(s, q + 1);
            match parse_multiplier(s, after) {
                Some((p2, n)) => {
                    let mut out: Vec<Stitch> = Vec::new();
                    let mut c: usize = 0;
                    while c < n
                        invariant
                            c <= n,
                            out@ == repeat_seq(items@, c as int),
                        decreases n - c,
                    {
                        let mut idx: usize = 0;
                        while idx < items.len()
                            invariant
                                idx <= items@.len(),
                                out@ == repeat_seq(items@, c as int) + items@.take(idx as int),
                            decreases items@.len() - idx,
                        {
                            out.push(items[idx]);
                            idx += 1;
                        }
                        proof {
                            assert(items@.take(items@.len() as int) =~= items@);
                            assert(out@ =~= repeat_seq(items@, c + 1));
                        }
                        c += 1;
                    }
                    let end = skip_space(s, p2);
                    Some((end, out))
                },
                None => Some((after, items)),
            }
        } else {
            None
        }
    } else {
        None
    }
}

/// One element of a list: a group if one starts here, else a stitch token.
fn parse_element(s: &[u8], i: usize) -> (r: Option<(usize, Vec<Stitch>)>)
    requires
        i <= s@.len(),
    ensures
        elem_corresponds(r, spec_element(s@, i as int)),
    decreases s@.len() - i, 1int,
{
    match parse_group(s, i) {
        Some(r) => Some(r),
        None => parse_stitch_elem(s, i),
    }
}

/// The comma-separated list of elements starting at `i`.
fn parse_group_list(s: &[u8], i: usize) -> (r: (usize, Vec<Stitch>))
    requires
        i <= s@.len(),
    ensures
        ({
            let m = spec_group_list(s@, i as int);
            r.0 == m.0 && r.1@ == m.1 && i <= r.0 <= s@.len()
        }),
    decreases s@.len() - i, 2int,
{
    proof {
        lemma_element_progress(s@, i as int);
        lemma_group_list_progress(s@, i as int);
    }
    match parse_element(s, i) {
        None => (i, Vec::new()),
        Some((p, items)) => parse_group_list_more(s, p, items),
    }
}

/// The continuation of a list after at least one element.
#[verifier::loop_isolation(false)]
fn parse_group_list_more(s: &[u8], i: usize, acc: Vec<Stitch>) -> (r: (usize, Vec<Stitch>))
    requires
        i <= s@.len(),
    ensures
        ({
            let m = spec_group_list_more(s@, i as int, acc@);
            r.0 == m.0 && r.1@ == m.1 && i <= r.0 <= s@.len()
        }),
    decreases s@.len() - i, 2int,
{
    proof {
        lemma_group_list_more_progress(s@, i as int, acc@);
    }
    if i < s.len() && s[i] == ',' as u8 {
        proof {
            lemma_element_progress(s@, i as int + 1);
        }
        match parse_element(s, i + 1) {
            None => (i, acc),
            Some((p, items)) => {
                let mut acc2 = acc;
                let mut idx: usize = 0;
                while idx < items.len()
                    invariant
                        idx <= items@.len(),
                        acc2@ == acc@ + items@.take(idx as int),
                    decreases items@.len() - idx,
                {
                    acc2.push(items[idx]);
                    idx += 1;
                }
                proof {
                    assert(items@.take(items@.len() as int) =~= items@);
                }
                parse_group_list_more(s, p, acc2)
            },
        }
    } else {
        (i, acc)
    }
}

/// Parses one line of stitch shorthand into its fully expanded sequence of
/// stitch tokens.
///
/// The line parses exactly when the whole grammar consumes every byte; when
/// some suffix cannot be consumed, the error reports the byte range from the
/// first unparsable byte through the last byte of the line, tagged with
/// `line_number`.
pub fn parse_stitches(line: &str, line_number: usize) -> (r: Result<VecDeque<Stitch>, ParseError>)
    ensures
        ({
            let b = line.spec_bytes();
            let m = spec_parse_line(b);
            match r {
                Ok(v) => m.0 == b.len() && v@ == m.1,
                Err(e) => m.0 < b.len() && e.spec_error_type() == ParseErrorType::InvalidSyntaxRange(
                    m.0 as usize,
                    (b.len() - 1) as usize,
                ) && e.spec_line_number() == line_number,
            }
        }),
{
    let s = line.as_bytes();
    let (pos, items) = parse_group_list(s, 0);
    if pos == s.len() {
        let mut out: VecDeque<Stitch> = VecDeque::new();
        let mut idx: usize = 0;
        while idx < items.len()
            invariant
                idx <= items@.len(),
                out@ == items@.take(idx as int),
            decreases items@.len() - idx,
        {
            out.push_back(items[idx]);
            idx += 1;
        }
        proof {
            assert(items@.take(items@.len() as int) =~= items@);
        }
        Ok(out)
    } else {
        Err(
            ParseError::new(
                ParseErrorType::InvalidSyntaxRange(pos, s.len() - 1),
                line_number,
            ),
        )
    }
}

} // verus!


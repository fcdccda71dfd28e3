//! Turns lines of shorthand text into a rectangular `Pattern`.
//!
//! Each raw line is classified: a line starting with the two-byte marker `##`
//! is a directive configuring the pattern's options, a line starting with a
//! single `#` is a comment and is ignored, and every other line is parsed as
//! stitches. Once all lines are read, the pattern is made rectangular: every
//! line narrower than the widest is padded with the same number of
//! `NoStitch` tokens on each side. A line whose width differs from the
//! pattern width by an odd amount cannot be padded symmetrically and aborts
//! the build.

use vstd::prelude::*;
use vstd::string::StringSliceAdditionalSpecFns;
use vstd::utf8::encode_utf8;

use std::collections::VecDeque;

use crate::error::{ParseError, ParseErrorType};
use crate::options::{spec_default_options, spec_options_apply, Options};
use crate::parse_line::{parse_stitches, spec_parse_line};
use crate::side::Side;
use crate::stitches::Stitch;

verus! {

/// The total width of a line: the sum of its stitches' widths.
pub open spec fn spec_line_width(l: Seq<Stitch>) -> int
    decreases l.len(),
{
    if l.len() == 0 {
        0
    } else {
        spec_line_width(l.drop_last()) + l.last().spec_width()
    }
}

/// The width of the widest line (0 when there are no lines).
pub open spec fn spec_max_width(ls: Seq<Seq<Stitch>>) -> int
    decreases ls.len(),
{
    if ls.len() == 0 {
        0
    } else {
        let m = spec_max_width(ls.drop_last());
        let w = spec_line_width(ls.last());
        if w > m {
            w
        } else {
            m
        }
    }
}

/// A line's width is never negative.
pub proof fn lemma_line_width_nonneg(l: Seq<Stitch>)
    ensures
        spec_line_width(l) >= 0,
    decreases l.len(),
{
    if l.len() > 0 {
        lemma_line_width_nonneg(l.drop_last());
    }
}

/// A prefix of a line is no wider than the line.
pub proof fn lemma_line_width_take_le(l: Seq<Stitch>, i: int)
    requires
        0 <= i <= l.len(),
    ensures
        spec_line_width(l.take(i)) <= spec_line_width(l),
    decreases l.len() - i,
{
    if i < l.len() {
        lemma_line_width_take_le(l, i + 1);
        assert(l.take(i + 1).drop_last() =~= l.take(i));
        assert(l.take(i + 1).last() == l[i]);
    } else {
        assert(l.take(i) =~= l);
    }
}

/// No line is wider than the widest.
pub proof fn lemma_max_width_bounds(ls: Seq<Seq<Stitch>>, k: int)
    requires
        0 <= k < ls.len(),
    ensures
        spec_line_width(ls[k]) <= spec_max_width(ls),
    decreases ls.len(),
{
    if k < ls.len() - 1 {
        lemma_max_width_bounds(ls.drop_last(), k);
        assert(ls.drop_last()[k] == ls[k]);
    }
}

/// The widest width is never negative.
pub proof fn lemma_max_width_nonneg(ls: Seq<Seq<Stitch>>)
    ensures
        spec_max_width(ls) >= 0,
    decreases ls.len(),
{
    if ls.len() > 0 {
        lemma_max_width_nonneg(ls.drop_last());
    }
}

/// The width of a concatenation is the sum of the widths.
pub proof fn lemma_line_width_concat(a: Seq<Stitch>, b: Seq<Stitch>)
    ensures
        spec_line_width(a + b) == spec_line_width(a) + spec_line_width(b),
    decreases b.len(),
{
    if b.len() == 0 {
        assert(a + b =~= a);
    } else {
        lemma_line_width_concat(a, b.drop_last());
        assert((a + b).drop_last() =~= a + b.drop_last());
        assert((a + b).last() == b.last());
    }
}

/// A run of `n` `NoStitch` tokens.
pub open spec fn nostitch_run(n: int) -> Seq<Stitch>
    decreases n,
{
    if n <= 0 {
        Seq::empty()
    } else {
        nostitch_run(n - 1).push(Stitch::NoStitch)
    }
}

/// A run of `n` padding tokens has length and width `n`.
pub proof fn lemma_nostitch_run_width(n: int)
    requires
        n >= 0,
    ensures
        nostitch_run(n).len() == n,
        spec_line_width(nostitch_run(n)) == n,
    decreases n,
{
    if n > 0 {
        lemma_nostitch_run_width(n - 1);
        assert(nostitch_run(n).drop_last() =~= nostitch_run(n - 1));
    }
}

/// `l` padded symmetrically with `NoStitch` to reach width `w`: an even
/// deficit of `d` adds `d / 2` padding tokens on each side.
pub open spec fn pad_line(l: Seq<Stitch>, w: int) -> Seq<Stitch> {
    let half = (w - spec_line_width(l)) / 2;
    nostitch_run(half) + l + nostitch_run(half)
}

/// Symmetric padding reaches exactly the pattern width when the deficit is
/// even.
pub proof fn lemma_pad_line_width(l: Seq<Stitch>, w: int)
    requires
        spec_line_width(l) <= w,
        (w - spec_line_width(l)) % 2 == 0,
    ensures
        spec_line_width(pad_line(l, w)) == w,
{
    let half = (w - spec_line_width(l)) / 2;
    lemma_nostitch_run_width(half);
    lemma_line_width_concat(nostitch_run(half), l);
    lemma_line_width_concat(nostitch_run(half) + l, nostitch_run(half));
}

/// A directive line starts with the two-byte `##` marker.
pub open spec fn is_directive(s: Seq<u8>) -> bool {
    s.len() >= 2 && s[0] == '#' as u8 && s[1] == '#' as u8
}

/// A comment line starts with one `#` and no second one.
pub open spec fn is_comment(s: Seq<u8>) -> bool {
    s.len() >= 1 && s[0] == '#' as u8 && !is_directive(s)
}

/// Reading the raw lines in order, starting at line index `k` with the
/// options and stitch lines collected so far: directives update the options,
/// comments are skipped, and every other line is parsed as stitches and
/// recorded together with its 1-based source line number. The first failing
/// line aborts with its error and 1-based line number.
pub open spec fn spec_ingest(
    lines: Seq<Seq<u8>>,
    k: int,
    opts: Options,
    acc: Seq<(Seq<Stitch>, int)>,
) -> Result<(Options, Seq<(Seq<Stitch>, int)>), (ParseErrorType, int)>
    decreases lines.len() - k,
{
    if k < 0 || k >= lines.len() {
        Ok((opts, acc))
    } else {
        let l = lines[k];
        if is_directive(l) {
            match spec_options_apply(opts, l) {
                Some(applied) => spec_ingest(lines, k + 1, applied, acc),
                None => Err(
                    (ParseErrorType::InvalidSyntaxRange(2, (l.len() - 1) as usize), k + 1),
                ),
            }
        } else if is_comment(l) {
            spec_ingest(lines, k + 1, opts, acc)
        } else {
            let m = spec_parse_line(l);
            if m.0 == l.len() {
                spec_ingest(lines, k + 1, opts, acc.push((m.1, k + 1)))
            } else {
                Err(
                    (
                        ParseErrorType::InvalidSyntaxRange(m.0 as usize, (l.len() - 1) as usize),
                        k + 1,
                    ),
                )
            }
        }
    }
}

/// The stitch lines alone, without their source line numbers.
pub open spec fn line_seqs(pairs: Seq<(Seq<Stitch>, int)>) -> Seq<Seq<Stitch>> {
    pairs.map_values(|p: (Seq<Stitch>, int)| p.0)
}

/// The first (least) index at or after `k` among the stitch lines whose width
/// differs from the pattern width `w` by an odd amount.
pub open spec fn spec_first_odd(tls: Seq<Seq<Stitch>>, w: int, k: int) -> Option<int>
    decreases tls.len() - k,
{
    if k < 0 || k >= tls.len() {
        None
    } else if (w - spec_line_width(tls[k])) % 2 != 0 {
        Some(k)
    } else {
        spec_first_odd(tls, w, k + 1)
    }
}

/// A first odd-deficit line, when there is one, lies at or after where the
/// search began and inside the lines.
pub proof fn lemma_first_odd_some_bounds(tls: Seq<Seq<Stitch>>, w: int, k: int)
    requires
        0 <= k,
    ensures
        spec_first_odd(tls, w, k) matches Some(q) ==> k <= q < tls.len(),
    decreases tls.len() - k,
{
    if 0 <= k < tls.len() && (w - spec_line_width(tls[k])) % 2 == 0 {
        lemma_first_odd_some_bounds(tls, w, k + 1);
    }
}

/// When no line has an odd deficit, every deficit is even.
pub proof fn lemma_first_odd_none(tls: Seq<Seq<Stitch>>, w: int, k: int, q: int)
    requires
        spec_first_odd(tls, w, k) is None,
        0 <= k <= q < tls.len(),
    ensures
        (w - spec_line_width(tls[q])) % 2 == 0,
    decreases q - k,
{
    if k < q {
        lemma_first_odd_none(tls, w, k + 1, q);
    }
}

/// The raw bytes of each line of text.
pub open spec fn lines_bytes(ls: Seq<String>) -> Seq<Seq<u8>> {
    ls.map_values(|l: String| encode_utf8(l@))
}

/// The views of a sequence of stitch lines.
pub open spec fn deque_views(ls: Seq<VecDeque<Stitch>>) -> Seq<Seq<Stitch>> {
    ls.map_values(|d: VecDeque<Stitch>| d@)
}

/// Stitch lines held as deques, paired with their source line numbers.
pub open spec fn paired_views(ls: Seq<VecDeque<Stitch>>, nums: Seq<usize>) -> Seq<
    (Seq<Stitch>, int),
> {
    Seq::new(ls.len(), |q: int| (ls[q]@, nums[q] as int))
}

/// Everything `Pattern::new` computes, as one function of the raw lines: the
/// options, the padded stitch lines and the pattern width of the finished
/// pattern, or the first error and the 1-based source line number it is
/// tagged with.
pub open spec fn spec_build(lines: Seq<Seq<u8>>) -> Result<
    (Options, Seq<Seq<Stitch>>, int),
    (ParseErrorType, int),
> {
    match spec_ingest(lines, 0, spec_default_options(), Seq::empty()) {
        Err(e) => Err(e),
        Ok((opts, pairs)) => {
            let tls = line_seqs(pairs);
            let w = spec_max_width(tls);
            match spec_first_odd(tls, w, 0) {
                Some(k) => Err(
                    (
                        ParseErrorType::InvalidStitchCount(spec_line_width(tls[k]) as usize),
                        pairs[k].1,
                    ),
                ),
                None => Ok((opts, Seq::new(tls.len(), |k: int| pad_line(tls[k], w)), w)),
            }
        },
    }
}

/// Whether the line widths that `Pattern::new` computes all fit the machine's
/// `usize`; this is the one machine limit its construction needs.
pub open spec fn spec_widths_fit(lines: Seq<Seq<u8>>) -> bool {
    match spec_ingest(lines, 0, spec_default_options(), Seq::empty()) {
        Ok((opts, pairs)) => spec_max_width(line_seqs(pairs)) <= usize::MAX,
        Err(_) => true,
    }
}

/// Computes the total width of the line: the sum of its stitches' widths.
#[verifier::loop_isolation(false)]
pub fn calculate_line_width(stitches: &VecDeque<Stitch>) -> (r: usize)
    requires
        spec_line_width(stitches@) <= usize::MAX,
    ensures
        r == spec_line_width(stitches@),
{
    let mut width: usize = 0;
    let mut i: usize = 0;
    while i < stitches.len()
        invariant
            0 <= i <= stitches@.len(),
            width == spec_line_width(stitches@.take(i as int)),
        decreases stitches@.len() - i,
    {
        proof {
            lemma_line_width_take_le(stitches@, i + 1);
            assert(stitches@.take(i + 1).drop_last() =~= stitches@.take(i as int));
            assert(stitches@.take(i + 1).last() == stitches@[i as int]);
        }
        width = width + stitches[i].width();
        i += 1;
    }
    proof {
        assert(stitches@.take(stitches@.len() as int) =~= stitches@);
    }
    width
}

/// Computes the total width of the line, unless it does not fit a `usize`.
#[verifier::loop_isolation(false)]
fn checked_line_width(stitches: &VecDeque<Stitch>) -> (r: Option<usize>)
    ensures
        match r {
            Some(v) => v as int == spec_line_width(stitches@),
            None => spec_line_width(stitches@) > usize::MAX,
        },
{
    let mut width: usize = 0;
    let mut i: usize = 0;
    while i < stitches.len()
        invariant
            0 <= i <= stitches@.len(),
            width as int == spec_line_width(stitches@.take(i as int)),
        decreases stitches@.len() - i,
    {
        proof {
            assert(stitches@.take(i + 1).drop_last() =~= stitches@.take(i as int));
            assert(stitches@.take(i + 1).last() == stitches@[i as int]);
        }
        match width.checked_add(stitches[i].width()) {
            Some(wider) => {
                width = wider;
            },
            None => {
                proof {
                    lemma_line_width_take_le(stitches@, i + 1);
                }
                return None;
            },
        }
        i += 1;
    }
    proof {
        assert(stitches@.take(stitches@.len() as int) =~= stitches@);
    }
    Some(width)
}

/// Whether every line width that `Pattern::new` computes for these lines of
/// text fits the machine's `usize`: the one condition its construction
/// requires. Lines that fail to parse satisfy it trivially, since
/// construction fails before any width is computed.
#[verifier::loop_isolation(false)]
pub fn widths_fit(lines: &Vec<String>) -> (r: bool)
    ensures
        r == spec_widths_fit(lines_bytes(lines@)),
{
    let ghost bls = lines_bytes(lines@);
    let mut options = Options::default();
    let ghost mut gtls: Seq<(Seq<Stitch>, int)> = Seq::empty();
    let mut all_fit = true;
    let mut k: usize = 0;
    while k < lines.len()
        invariant
            0 <= k <= lines@.len(),
            spec_ingest(bls, 0, spec_default_options(), Seq::empty()) == spec_ingest(
                bls,
                k as int,
                options,
                gtls,
            ),
            all_fit == (spec_max_width(line_seqs(gtls)) <= usize::MAX),
        decreases lines@.len() - k,
    {
        let line = &lines[k];
        let b = line.as_str().as_bytes();
        proof {
            assert(bls[k as int] == encode_utf8(line@));
        }
        if b.len() >= 2 && b[0] == '#' as u8 && b[1] == '#' as u8 {
            match options.parse_options(line.as_str(), k + 1) {
                Ok(_) => {},
                Err(_) => {
                    return true;
                },
            }
        } else if b.len() >= 1 && b[0] == '#' as u8 {
            // A comment line is ignored verbatim.
        } else {
            match parse_stitches(line.as_str(), k + 1) {
                Ok(parsed) => {
                    proof {
                        let wider = gtls.push((parsed@, k + 1));
                        assert(line_seqs(wider) =~= line_seqs(gtls).push(parsed@));
                        assert(line_seqs(wider).drop_last() =~= line_seqs(gtls));
                        assert(line_seqs(wider).last() == parsed@);
                    }
                    match checked_line_width(&parsed) {
                        Some(_) => {},
                        None => {
                            all_fit = false;
                        },
                    }
                    proof {
                        gtls = gtls.push((parsed@, k + 1));
                    }
                },
                Err(_) => {
                    return true;
                },
            }
        }
        k += 1;
    }
    all_fit
}

/// Reads the raw lines in order: directives update the options, comments are
/// ignored, and every other line is parsed as stitches and recorded with its
/// 1-based source line number. The first failing line aborts with its error,
/// tagged with the 1-based line number.
#[verifier::loop_isolation(false)]
fn ingest_lines(lines: &Vec<String>) -> (r: Result<
    (Options, Vec<VecDeque<Stitch>>, Vec<usize>),
    ParseError,
>)
    ensures
        ({
            let m = spec_ingest(lines_bytes(lines@), 0, spec_default_options(), Seq::empty());
            match r {
                Ok(ok) => ok.2@.len() == ok.1@.len() && m == Ok::<_, (ParseErrorType, int)>(
                    (ok.0, paired_views(ok.1@, ok.2@)),
                ),
                Err(e) => m matches Err(err) && e.spec_error_type() == err.0
                    && e.spec_line_number() as int == err.1,
            }
        }),
{
    let ghost bls = lines_bytes(lines@);
    let mut options = Options::default();
    let mut tls: Vec<VecDeque<Stitch>> = Vec::new();
    let mut nums: Vec<usize> = Vec::new();
    proof {
        assert(paired_views(tls@, nums@) =~= Seq::<(Seq<Stitch>, int)>::empty());
    }
    let mut k: usize = 0;
    while k < lines.len()
        invariant
            0 <= k <= lines@.len(),
            nums@.len() == tls@.len(),
            spec_ingest(bls, 0, spec_default_options(), Seq::empty()) == spec_ingest(
                bls,
                k as int,
                options,
                paired_views(tls@, nums@),
            ),
        decreases lines@.len() - k,
    {
        let line = &lines[k];
        let b = line.as_str().as_bytes();
        proof {
            assert(bls[k as int] == encode_utf8(line@));
        }
        if b.len() >= 2 && b[0] == '#' as u8 && b[1] == '#' as u8 {
            match options.parse_options(line.as_str(), k + 1) {
                Ok(_) => {},
                Err(e) => {
                    return Err(e);
                },
            }
        } else if b.len() >= 1 && b[0] == '#' as u8 {
            // A comment line is ignored verbatim.
        } else {
            match parse_stitches(line.as_str(), k + 1) {
                Ok(parsed) => {
                    let ghost old_pairs = paired_views(tls@, nums@);
                    tls.push(parsed);
                    nums.push(k + 1);
                    proof {
                        assert(paired_views(tls@, nums@) =~= old_pairs.push((parsed@, k + 1)));
                    }
                },
                Err(e) => {
                    return Err(e);
                },
            }
        }
        k += 1;
    }
    Ok((options, tls, nums))
}

/// The width of the widest of the given lines.
#[verifier::loop_isolation(false)]
fn max_line_width(tls: &Vec<VecDeque<Stitch>>) -> (r: usize)
    requires
        spec_max_width(deque_views(tls@)) <= usize::MAX,
    ensures
        r as int == spec_max_width(deque_views(tls@)),
{
    let ghost tlviews = deque_views(tls@);
    let mut pattern_width: usize = 0;
    let mut j: usize = 0;
    while j < tls.len()
        invariant
            0 <= j <= tls@.len(),
            pattern_width == spec_max_width(tlviews.take(j as int)),
        decreases tls@.len() - j,
    {
        proof {
            assert(tlviews[j as int] == tls@[j as int]@);
            lemma_max_width_bounds(tlviews, j as int);
            lemma_line_width_nonneg(tlviews[j as int]);
            assert(tlviews.take(j + 1).drop_last() =~= tlviews.take(j as int));
            assert(tlviews.take(j + 1).last() == tlviews[j as int]);
        }
        let w = calculate_line_width(&tls[j]);
        if w > pattern_width {
            pattern_width = w;
        }
        j += 1;
    }
    proof {
        assert(tlviews.take(tlviews.len() as int) =~= tlviews);
    }
    pattern_width
}

/// `cur` with `half` `NoStitch` tokens added on each side.
#[verifier::loop_isolation(false)]
fn pad_one(cur: &VecDeque<Stitch>, half: usize) -> (r: VecDeque<Stitch>)
    ensures
        r@ == nostitch_run(half as int) + cur@ + nostitch_run(half as int),
{
    let mut padded_line: VecDeque<Stitch> = VecDeque::new();
    let mut c: usize = 0;
    proof {
        assert(padded_line@ =~= nostitch_run(0));
    }
    while c < half
        invariant
            0 <= c <= half,
            padded_line@ == nostitch_run(c as int),
        decreases half - c,
    {
        padded_line.push_back(Stitch::NoStitch);
        c += 1;
    }
    let mut idx: usize = 0;
    proof {
        assert(padded_line@ =~= nostitch_run(half as int) + cur@.take(0));
    }
    while idx < cur.len()
        invariant
            0 <= idx <= cur@.len(),
            padded_line@ == nostitch_run(half as int) + cur@.take(idx as int),
        decreases cur@.len() - idx,
    {
        padded_line.push_back(cur[idx]);
        proof {
            assert(padded_line@ =~= nostitch_run(half as int) + cur@.take(idx + 1));
        }
        idx += 1;
    }
    proof {
        assert(cur@.take(cur@.len() as int) =~= cur@);
        assert(padded_line@ =~= nostitch_run(half as int) + cur@ + nostitch_run(0));
    }
    let mut c2: usize = 0;
    while c2 < half
        invariant
            0 <= c2 <= half,
            padded_line@ == nostitch_run(half as int) + cur@ + nostitch_run(c2 as int),
        decreases half - c2,
    {
        padded_line.push_back(Stitch::NoStitch);
        proof {
            assert(padded_line@ =~= nostitch_run(half as int) + cur@ + nostitch_run(c2 + 1));
        }
        c2 += 1;
    }
    padded_line
}

/// Pads every line to the pattern width, or fails on the first line whose
/// deficit is odd, tagging the error with that line's source line number.
#[verifier::loop_isolation(false)]
fn pad_lines(tls: &Vec<VecDeque<Stitch>>, nums: &Vec<usize>, pattern_width: usize) -> (r: Result<
    Vec<VecDeque<Stitch>>,
    ParseError,
>)
    requires
        nums@.len() == tls@.len(),
        pattern_width as int == spec_max_width(deque_views(tls@)),
    ensures
        ({
            let tlv = deque_views(tls@);
            match r {
                Ok(p) => spec_first_odd(tlv, pattern_width as int, 0) is None && deque_views(p@)
                    == Seq::new(tlv.len(), |q: int| pad_line(tlv[q], pattern_width as int)),
                Err(e) => spec_first_odd(tlv, pattern_width as int, 0) matches Some(q)
                    && e.spec_error_type() == ParseErrorType::InvalidStitchCount(
                    spec_line_width(tlv[q]) as usize,
                ) && e.spec_line_number() == nums@[q],
            }
        }),
{
    let ghost tlviews = deque_views(tls@);
    let mut padded: Vec<VecDeque<Stitch>> = Vec::new();
    let mut j: usize = 0;
    while j < tls.len()
        invariant
            0 <= j <= tls@.len(),
            padded@.len() == j,
            spec_first_odd(tlviews, pattern_width as int, 0) == spec_first_odd(
                tlviews,
                pattern_width as int,
                j as int,
            ),
            forall|q: int|
                0 <= q < j ==> padded@[q]@ == pad_line(tlviews[q], pattern_width as int),
        decreases tls@.len() - j,
    {
        proof {
            assert(tlviews[j as int] == tls@[j as int]@);
            lemma_max_width_bounds(tlviews, j as int);
            lemma_line_width_nonneg(tlviews[j as int]);
        }
        let cur = &tls[j];
        let w = calculate_line_width(cur);
        let deficit = pattern_width - w;
        if deficit % 2 != 0 {
            return Err(ParseError::new(ParseErrorType::InvalidStitchCount(w), nums[j]));
        }
        let half = deficit / 2;
        let line = pad_one(cur, half);
        padded.push(line);
        j += 1;
    }
    proof {
        assert(deque_views(padded@) =~= Seq::new(
            tlviews.len(),
            |q: int| pad_line(tlviews[q], pattern_width as int),
        ));
    }
    Ok(padded)
}

/// The representation of a knitting pattern.
///
/// A pattern will be a rectangle in size: every line has the same total
/// width, the pattern width.
#[derive(Debug)]
pub struct Pattern {
    lines: Vec<VecDeque<Stitch>>,
    pattern_width: usize,
    options: Options,
}

impl Pattern {
    /// The pattern's lines, each fully padded.
    pub closed spec fn spec_lines(&self) -> Seq<Seq<Stitch>> {
        deque_views(self.lines@)
    }

    /// The width every line of the pattern has.
    pub closed spec fn spec_pattern_width(&self) -> usize {
        self.pattern_width
    }

    /// The pattern-wide options carried over from the directive lines.
    pub closed spec fn spec_options(&self) -> Options {
        self.options
    }

    /// The rectangularity invariant: the total width of every line equals the
    /// pattern width. Construction establishes it, and a pattern is never
    /// changed afterwards.
    pub open spec fn wf(&self) -> bool {
        forall|k: int|
            0 <= k < self.spec_lines().len() ==> spec_line_width(self.spec_lines()[k])
                == self.spec_pattern_width()
    }

    /// Create a new Pattern from the given lines of text.
    ///
    /// This will pad the rows so they are all the same total width. The
    /// result is exactly what [`spec_build`] says: the first failing line
    /// aborts the whole build with its error, and on success every line of
    /// the pattern has the pattern's width. The one precondition is the
    /// machine limit that the line widths fit a `usize`; a caller outside
    /// verified code can test it with [`widths_fit`].
    ///
    /// # Arguments
    ///
    /// * `lines` - The lines of text to read the stitches from
    pub fn new(lines: &Vec<String>) -> (r: Result<Pattern, ParseError>)
        requires
            spec_widths_fit(lines_bytes(lines@)),
        ensures
            ({
                let m = spec_build(lines_bytes(lines@));
                match r {
                    Ok(p) => m matches Ok(b) && p.spec_lines() == b.1 && p.spec_options() == b.0
                        && p.spec_pattern_width() == b.2,
                    Err(e) => m matches Err(err) && e.spec_error_type() == err.0
                        && e.spec_line_number() as int == err.1,
                }
            }),
            r matches Ok(p) ==> p.wf(),
    {
        let (options, tls, nums) = match ingest_lines(lines) {
            Ok(ok) => ok,
            Err(e) => {
                return Err(e);
            },
        };
        proof {
            assert(line_seqs(paired_views(tls@, nums@)) =~= deque_views(tls@));
            lemma_max_width_nonneg(deque_views(tls@));
        }
        let pattern_width = max_line_width(&tls);
        let padded = match pad_lines(&tls, &nums, pattern_width) {
            Ok(p) => p,
            Err(e) => {
                proof {
                    let tlv = deque_views(tls@);
                    let pairs = paired_views(tls@, nums@);
                    lemma_first_odd_some_bounds(tlv, pattern_width as int, 0);
                    match spec_first_odd(tlv, pattern_width as int, 0) {
                        Some(q) => {
                            assert(pairs[q].1 == nums@[q] as int);
                        },
                        None => {},
                    }
                }
                return Err(e);
            },
        };
        proof {
            let tlv = deque_views(tls@);
            assert forall|k: int|
                0 <= k < tlv.len() implies spec_line_width(
                pad_line(tlv[k], pattern_width as int),
            ) == pattern_width as int by {
                lemma_first_odd_none(tlv, pattern_width as int, 0, k);
                lemma_max_width_bounds(tlv, k);
                lemma_pad_line_width(tlv[k], pattern_width as int);
            }
        }
        Ok(Pattern { lines: padded, pattern_width, options })
    }

    /// Returns the first line number for the pattern
    pub fn first_line_number(&self) -> (r: usize)
        ensures
            r == self.spec_options().first_line_number,
    {
        self.options.first_line_number
    }

    /// Returns the lines for the pattern
    pub fn lines(&self) -> (r: &Vec<VecDeque<Stitch>>)
        ensures
            deque_views(r@) == self.spec_lines(),
    {
        &self.lines
    }

    /// Return what side the pattern starts on
    pub fn starting_side(&self) -> (r: Side)
        ensures
            r == self.spec_options().starting_side,
    {
        self.options.starting_side
    }

    /// Return if the patter is in the round
    pub fn in_round(&self) -> (r: bool)
        ensures
            r == self.spec_options().in_round,
    {
        self.options.in_round
    }

    /// Returns the pattern switch width
    pub fn pattern_width(&self) -> (r: usize)
        ensures
            r == self.spec_pattern_width(),
    {
        self.pattern_width
    }
}

} // verus!

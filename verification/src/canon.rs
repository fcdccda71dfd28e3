//! The canonical text of a parsed line, and the proof that parsing is
//! idempotent under canonicalization: for every valid stitch line, parsing
//! it, serializing the tokens back to canonical text and parsing again yields
//! the same token sequence.
//!
//! The canonical text writes each token's name once, fully expanded, with the
//! tokens joined by a comma and a space: no groups, multipliers or extra
//! whitespace remain.

use vstd::prelude::*;

use std::collections::VecDeque;

use crate::parse_line::{
    is_space, match_at, spec_element, spec_group, spec_group_list, spec_group_list_more,
    spec_multiplier, spec_parse_line, spec_skip_space, spec_stitch_elem, spec_stitch_token,
};
use crate::stitches::Stitch;

verus! {

/// The canonical text of the tokens after the first: each preceded by a comma
/// and a space.
pub open spec fn canon_rest(toks: Seq<Stitch>) -> Seq<u8>
    decreases toks.len(),
{
    if toks.len() == 0 {
        Seq::empty()
    } else {
        seq![',' as u8, ' ' as u8] + toks[0].spec_name() + canon_rest(toks.skip(1))
    }
}

/// The canonical text of a token sequence: the tokens' names joined by a
/// comma and a space.
pub open spec fn canon(toks: Seq<Stitch>) -> Seq<u8> {
    if toks.len() == 0 {
        Seq::empty()
    } else {
        toks[0].spec_name() + canon_rest(toks.skip(1))
    }
}

/// Appending one token appends a separator and its name.
proof fn lemma_canon_rest_snoc(t: Seq<Stitch>, x: Stitch)
    ensures
        canon_rest(t.push(x)) == canon_rest(t) + seq![',' as u8, ' ' as u8] + x.spec_name(),
    decreases t.len(),
{
    assert(canon_rest(t.push(x)) == seq![',' as u8, ' ' as u8] + t.push(x)[0].spec_name()
        + canon_rest(t.push(x).skip(1)));
    if t.len() == 0 {
        assert(t.push(x)[0] == x);
        assert(t.push(x).skip(1) =~= Seq::<Stitch>::empty());
        assert(canon_rest(Seq::<Stitch>::empty()) == Seq::<u8>::empty());
        assert(canon_rest(t) == Seq::<u8>::empty());
        assert(canon_rest(t.push(x)) =~= canon_rest(t) + seq![',' as u8, ' ' as u8]
            + x.spec_name());
    } else {
        assert(t.push(x)[0] == t[0]);
        assert(t.push(x).skip(1) =~= t.skip(1).push(x));
        lemma_canon_rest_snoc(t.skip(1), x);
        assert(canon_rest(t) == seq![',' as u8, ' ' as u8] + t[0].spec_name() + canon_rest(
            t.skip(1),
        ));
        assert(canon_rest(t.push(x)) =~= canon_rest(t) + seq![',' as u8, ' ' as u8]
            + x.spec_name());
    }
}

/// Appending one token to a canonical line appends a separator (unless the
/// line was empty) and its name.
proof fn lemma_canon_snoc(t: Seq<Stitch>, x: Stitch)
    ensures
        t.len() == 0 ==> canon(t.push(x)) == x.spec_name(),
        t.len() > 0 ==> canon(t.push(x)) == canon(t) + seq![',' as u8, ' ' as u8]
            + x.spec_name(),
{
    if t.len() == 0 {
        assert(t.push(x)[0] == x);
        assert(t.push(x).skip(1) =~= Seq::<Stitch>::empty());
        assert(canon(t.push(x)) =~= x.spec_name());
    } else {
        assert(t.push(x)[0] == t[0]);
        assert(t.push(x).skip(1) =~= t.skip(1).push(x));
        lemma_canon_rest_snoc(t.skip(1), x);
        assert(canon(t.push(x)) =~= canon(t) + seq![',' as u8, ' ' as u8] + x.spec_name());
    }
}

/// The canonical text of a parsed line: the stitches' names, fully expanded,
/// joined by a comma and a space.
#[verifier::loop_isolation(false)]
pub fn canonical_line(stitches: &VecDeque<Stitch>) -> (r: Vec<u8>)
    ensures
        r@ == canon(stitches@),
{
    let mut out: Vec<u8> = Vec::new();
    let mut i: usize = 0;
    proof {
        assert(stitches@.take(0) =~= Seq::<Stitch>::empty());
    }
    while i < stitches.len()
        invariant
            0 <= i <= stitches@.len(),
            out@ == canon(stitches@.take(i as int)),
        decreases stitches@.len() - i,
    {
        if i > 0 {
            out.push(',' as u8);
            out.push(' ' as u8);
        }
        let name = stitches[i].name();
        let mut q: usize = 0;
        while q < name.len()
            invariant
                0 <= q <= name@.len(),
                i < stitches@.len(),
                out@ == if i == 0 {
                    name@.take(q as int)
                } else {
                    canon(stitches@.take(i as int)) + seq![',' as u8, ' ' as u8] + name@.take(
                        q as int,
                    )
                },
        decreases name@.len() - q,
        {
            out.push(name[q]);
            proof {
                assert(name@.take(q + 1) =~= name@.take(q as int).push(name@[q as int]));
            }
            q += 1;
        }
        proof {
            assert(name@.take(name@.len() as int) =~= name@);
            lemma_canon_snoc(stitches@.take(i as int), stitches@[i as int]);
            assert(stitches@.take(i + 1) =~= stitches@.take(i as int).push(
                stitches@[i as int],
            ));
        }
        i += 1;
    }
    proof {
        assert(stitches@.take(stitches@.len() as int) =~= stitches@);
    }
    out
}

/// A literal longer than an already matched one cannot also match when the
/// shorter one is followed by the end of the line or a comma, since no
/// stitch name holds a comma.
proof fn lemma_match_at_boundary(s: Seq<u8>, i: int, a: Seq<u8>, b: Seq<u8>)
    requires
        match_at(s, i, a),
        a.len() < b.len(),
        i + a.len() == s.len() || s[i + a.len()] == ',' as u8,
        b[a.len() as int] != ',' as u8,
    ensures
        !match_at(s, i, b),
{
    if match_at(s, i, b) {
        assert(s[i + a.len()] == b[a.len() as int]);
        assert(i + b.len() <= s.len());
    }
}

/// No stitch name is empty, and none starts with whitespace or an opening
/// parenthesis.
proof fn lemma_name_first_byte(st: Stitch)
    ensures
        1 <= st.spec_name().len(),
        !is_space(st.spec_name()[0]),
        st.spec_name()[0] != '(' as u8,
{
}

/// At the start of a stitch's canonical name the token matcher finds exactly
/// that stitch, provided the name is followed by nothing or by a comma: no
/// alternative tried earlier in the priority list can match there.
#[verifier::rlimit(60)]
proof fn lemma_token_at(s: Seq<u8>, i: int, st: Stitch)
    requires
        match_at(s, i, st.spec_name()),
        i + st.spec_name().len() == s.len() || s[i + st.spec_name().len()] == ',' as u8,
    ensures
        spec_stitch_token(s, i) == Some(st),
{
    // Each arm spells out the bytes of the matched name, and, for every
    // alternative tried earlier that shares a prefix with it, the byte at the
    // first position where the two names differ; naming those bytes lets the
    // prover rule the earlier alternative out. An earlier alternative that
    // extends the whole name is ruled out by the boundary byte instead: a
    // comma (or the end of the line), which no name holds.
    match st {
        Stitch::Lcf1 => {
            assert(st.spec_name()[0] == '1' as u8);
            assert(st.spec_name()[1] == 'l' as u8);
            assert(st.spec_name()[2] == 'c' as u8);
            assert(st.spec_name()[3] == 'f' as u8);
        },
        Stitch::Rcb1 => {
            assert(st.spec_name()[0] == '1' as u8);
            assert(st.spec_name()[1] == 'r' as u8);
            assert(st.spec_name()[2] == 'c' as u8);
            assert(st.spec_name()[3] == 'b' as u8);
            assert(Stitch::Lcf1.spec_name()[1] == 'l' as u8);
        },
        Stitch::Lcf2 => {
            assert(st.spec_name()[0] == '2' as u8);
            assert(st.spec_name()[1] == 'l' as u8);
            assert(st.spec_name()[2] == 'c' as u8);
            assert(st.spec_name()[3] == 'f' as u8);
            assert(Stitch::Lcf1.spec_name()[0] == '1' as u8);
            assert(Stitch::Rcb1.spec_name()[0] == '1' as u8);
        },
        Stitch::Rcb2 => {
            assert(st.spec_name()[0] == '2' as u8);
            assert(st.spec_name()[1] == 'r' as u8);
            assert(st.spec_name()[2] == 'c' as u8);
            assert(st.spec_name()[3] == 'b' as u8);
            assert(Stitch::Lcf1.spec_name()[0] == '1' as u8);
            assert(Stitch::Rcb1.spec_name()[0] == '1' as u8);
            assert(Stitch::Lcf2.spec_name()[1] == 'l' as u8);
        },
        Stitch::Lcf3 => {
            assert(st.spec_name()[0] == '3' as u8);
            assert(st.spec_name()[1] == 'l' as u8);
            assert(st.spec_name()[2] == 'c' as u8);
            assert(st.spec_name()[3] == 'f' as u8);
            assert(Stitch::Lcf1.spec_name()[0] == '1' as u8);
            assert(Stitch::Rcb1.spec_name()[0] == '1' as u8);
            assert(Stitch::Lcf2.spec_name()[0] == '2' as u8);
            assert(Stitch::Rcb2.spec_name()[0] == '2' as u8);
        },
        Stitch::Rcb3 => {
            assert(st.spec_name()[0] == '3' as u8);
            assert(st.spec_name()[1] == 'r' as u8);
            assert(st.spec_name()[2] == 'c' as u8);
            assert(st.spec_name()[3] == 'b' as u8);
            assert(Stitch::Lcf1.spec_name()[0] == '1' as u8);
            assert(Stitch::Rcb1.spec_name()[0] == '1' as u8);
            assert(Stitch::Lcf2.spec_name()[0] == '2' as u8);
            assert(Stitch::Rcb2.spec_name()[0] == '2' as u8);
            assert(Stitch::Lcf3.spec_name()[1] == 'l' as u8);
        },
        Stitch::Lcf4 => {
            assert(st.spec_name()[0] == '4' as u8);
            assert(st.spec_name()[1] == 'l' as u8);
            assert(st.spec_name()[2] == 'c' as u8);
            assert(st.spec_name()[3] == 'f' as u8);
            assert(Stitch::Lcf1.spec_name()[0] == '1' as u8);
            assert(Stitch::Rcb1.spec_name()[0] == '1' as u8);
            assert(Stitch::Lcf2.spec_name()[0] == '2' as u8);
            assert(Stitch::Rcb2.spec_name()[0] == '2' as u8);
            assert(Stitch::Lcf3.spec_name()[0] == '3' as u8);
            assert(Stitch::Rcb3.spec_name()[0] == '3' as u8);
        },
        Stitch::Rcb4 => {
            assert(st.spec_name()[0] == '4' as u8);
            assert(st.spec_name()[1] == 'r' as u8);
            assert(st.spec_name()[2] == 'c' as u8);
            assert(st.spec_name()[3] == 'b' as u8);
            assert(Stitch::Lcf1.spec_name()[0] == '1' as u8);
            assert(Stitch::Rcb1.spec_name()[0] == '1' as u8);
            assert(Stitch::Lcf2.spec_name()[0] == '2' as u8);
            assert(Stitch::Rcb2.spec_name()[0] == '2' as u8);
            assert(Stitch::Lcf3.spec_name()[0] == '3' as u8);
            assert(Stitch::Rcb3.spec_name()[0] == '3' as u8);
            assert(Stitch::Lcf4.spec_name()[1] == 'l' as u8);
        },
        Stitch::Bead => {
            assert(st.spec_name()[0] == 'b' as u8);
            assert(st.spec_name()[1] == 'e' as u8);
            assert(st.spec_name()[2] == 'a' as u8);
            assert(st.spec_name()[3] == 'd' as u8);
            assert(Stitch::Lcf1.spec_name()[0] == '1' as u8);
            assert(Stitch::Rcb1.spec_name()[0] == '1' as u8);
            assert(Stitch::Lcf2.spec_name()[0] == '2' as u8);
            assert(Stitch::Rcb2.spec_name()[0] == '2' as u8);
            assert(Stitch::Lcf3.spec_name()[0] == '3' as u8);
            assert(Stitch::Rcb3.spec_name()[0] == '3' as u8);
            assert(Stitch::Lcf4.spec_name()[0] == '4' as u8);
            assert(Stitch::Rcb4.spec_name()[0] == '4' as u8);
        },
        Stitch::Bobble => {
            assert(st.spec_name()[0] == 'b' as u8);
            assert(st.spec_name()[1] == 'o' as u8);
            assert(st.spec_name()[2] == 'b' as u8);
            assert(st.spec_name()[3] == 'b' as u8);
            assert(st.spec_name()[4] == 'l' as u8);
            assert(st.spec_name()[5] == 'e' as u8);
            assert(Stitch::Lcf1.spec_name()[0] == '1' as u8);
            assert(Stitch::Rcb1.spec_name()[0] == '1' as u8);
            assert(Stitch::Lcf2.spec_name()[0] == '2' as u8);
            assert(Stitch::Rcb2.spec_name()[0] == '2' as u8);
            assert(Stitch::Lcf3.spec_name()[0] == '3' as u8);
            assert(Stitch::Rcb3.spec_name()[0] == '3' as u8);
            assert(Stitch::Lcf4.spec_name()[0] == '4' as u8);
            assert(Stitch::Rcb4.spec_name()[0] == '4' as u8);
            assert(Stitch::Bead.spec_name()[1] == 'e' as u8);
        },
        Stitch::Bo => {
            assert(st.spec_name()[0] == 'b' as u8);
            assert(st.spec_name()[1] == 'o' as u8);
            assert(Stitch::Lcf1.spec_name()[0] == '1' as u8);
            assert(Stitch::Rcb1.spec_name()[0] == '1' as u8);
            assert(Stitch::Lcf2.spec_name()[0] == '2' as u8);
            assert(Stitch::Rcb2.spec_name()[0] == '2' as u8);
            assert(Stitch::Lcf3.spec_name()[0] == '3' as u8);
            assert(Stitch::Rcb3.spec_name()[0] == '3' as u8);
            assert(Stitch::Lcf4.spec_name()[0] == '4' as u8);
            assert(Stitch::Rcb4.spec_name()[0] == '4' as u8);
            assert(Stitch::Bead.spec_name()[1] == 'e' as u8);
            lemma_match_at_boundary(s, i, st.spec_name(), Stitch::Bobble.spec_name());
        },
        Stitch::Ktbl => {
            assert(st.spec_name()[0] == 'k' as u8);
            assert(st.spec_name()[1] == 't' as u8);
            assert(st.spec_name()[2] == 'b' as u8);
            assert(st.spec_name()[3] == 'l' as u8);
            assert(Stitch::Lcf1.spec_name()[0] == '1' as u8);
            assert(Stitch::Rcb1.spec_name()[0] == '1' as u8);
            assert(Stitch::Lcf2.spec_name()[0] == '2' as u8);
            assert(Stitch::Rcb2.spec_name()[0] == '2' as u8);
            assert(Stitch::Lcf3.spec_name()[0] == '3' as u8);
            assert(Stitch::Rcb3.spec_name()[0] == '3' as u8);
            assert(Stitch::Lcf4.spec_name()[0] == '4' as u8);
            assert(Stitch::Rcb4.spec_name()[0] == '4' as u8);
            assert(Stitch::Bead.spec_name()[0] == 'b' as u8);
            assert(Stitch::Bobble.spec_name()[0] == 'b' as u8);
            assert(Stitch::Bo.spec_name()[0] == 'b' as u8);
        },
        Stitch::Kbf => {
            assert(st.spec_name()[0] == 'k' as u8);
            assert(st.spec_name()[1] == 'b' as u8);
            assert(st.spec_name()[2] == 'f' as u8);
            assert(Stitch::Lcf1.spec_name()[0] == '1' as u8);
            assert(Stitch::Rcb1.spec_name()[0] == '1' as u8);
            assert(Stitch::Lcf2.spec_name()[0] == '2' as u8);
            assert(Stitch::Rcb2.spec_name()[0] == '2' as u8);
            assert(Stitch::Lcf3.spec_name()[0] == '3' as u8);
            assert(Stitch::Rcb3.spec_name()[0] == '3' as u8);
            assert(Stitch::Lcf4.spec_name()[0] == '4' as u8);
            assert(Stitch::Rcb4.spec_name()[0] == '4' as u8);
            assert(Stitch::Bead.spec_name()[0] == 'b' as u8);
            assert(Stitch::Bobble.spec_name()[0] == 'b' as u8);
            assert(Stitch::Bo.spec_name()[0] == 'b' as u8);
            assert(Stitch::Ktbl.spec_name()[1] == 't' as u8);
        },
        Stitch::Kfb => {
            assert(st.spec_name()[0] == 'k' as u8);
            assert(st.spec_name()[1] == 'f' as u8);
            assert(st.spec_name()[2] == 'b' as u8);
            assert(Stitch::Lcf1.spec_name()[0] == '1' as u8);
            assert(Stitch::Rcb1.spec_name()[0] == '1' as u8);
            assert(Stitch::Lcf2.spec_name()[0] == '2' as u8);
            assert(Stitch::Rcb2.spec_name()[0] == '2' as u8);
            assert(Stitch::Lcf3.spec_name()[0] == '3' as u8);
            assert(Stitch::Rcb3.spec_name()[0] == '3' as u8);
            assert(Stitch::Lcf4.spec_name()[0] == '4' as u8);
            assert(Stitch::Rcb4.spec_name()[0] == '4' as u8);
            assert(Stitch::Bead.spec_name()[0] == 'b' as u8);
            assert(Stitch::Bobble.spec_name()[0] == 'b' as u8);
            assert(Stitch::Bo.spec_name()[0] == 'b' as u8);
            assert(Stitch::Ktbl.spec_name()[1] == 't' as u8);
            assert(Stitch::Kbf.spec_name()[1] == 'b' as u8);
        },
        Stitch::K2Tog => {
            assert(st.spec_name()[0] == 'k' as u8);
            assert(st.spec_name()[1] == '2' as u8);
            assert(st.spec_name()[2] == 't' as u8);
            assert(st.spec_name()[3] == 'o' as u8);
            assert(st.spec_name()[4] == 'g' as u8);
            assert(Stitch::Lcf1.spec_name()[0] == '1' as u8);
            assert(Stitch::Rcb1.spec_name()[0] == '1' as u8);
            assert(Stitch::Lcf2.spec_name()[0] == '2' as u8);
            assert(Stitch::Rcb2.spec_name()[0] == '2' as u8);
            assert(Stitch::Lcf3.spec_name()[0] == '3' as u8);
            assert(Stitch::Rcb3.spec_name()[0] == '3' as u8);
            assert(Stitch::Lcf4.spec_name()[0] == '4' as u8);
            assert(Stitch::Rcb4.spec_name()[0] == '4' as u8);
            assert(Stitch::Bead.spec_name()[0] == 'b' as u8);
            assert(Stitch::Bobble.spec_name()[0] == 'b' as u8);
            assert(Stitch::Bo.spec_name()[0] == 'b' as u8);
            assert(Stitch::Ktbl.spec_name()[1] == 't' as u8);
            assert(Stitch::Kbf.spec_name()[1] == 'b' as u8);
            assert(Stitch::Kfb.spec_name()[1] == 'f' as u8);
        },
        Stitch::K => {
            assert(st.spec_name()[0] == 'k' as u8);
            assert(Stitch::Lcf1.spec_name()[0] == '1' as u8);
            assert(Stitch::Rcb1.spec_name()[0] == '1' as u8);
            assert(Stitch::Lcf2.spec_name()[0] == '2' as u8);
            assert(Stitch::Rcb2.spec_name()[0] == '2' as u8);
            assert(Stitch::Lcf3.spec_name()[0] == '3' as u8);
            assert(Stitch::Rcb3.spec_name()[0] == '3' as u8);
            assert(Stitch::Lcf4.spec_name()[0] == '4' as u8);
            assert(Stitch::Rcb4.spec_name()[0] == '4' as u8);
            assert(Stitch::Bead.spec_name()[0] == 'b' as u8);
            assert(Stitch::Bobble.spec_name()[0] == 'b' as u8);
            assert(Stitch::Bo.spec_name()[0] == 'b' as u8);
            lemma_match_at_boundary(s, i, st.spec_name(), Stitch::Ktbl.spec_name());
            lemma_match_at_boundary(s, i, st.spec_name(), Stitch::Kbf.spec_name());
            lemma_match_at_boundary(s, i, st.spec_name(), Stitch::Kfb.spec_name());
            lemma_match_at_boundary(s, i, st.spec_name(), Stitch::K2Tog.spec_name());
        },
        Stitch::MPwise => {
            assert(st.spec_name()[0] == 'm' as u8);
            assert(st.spec_name()[1] == ' ' as u8);
            assert(st.spec_name()[2] == 'p' as u8);
            assert(st.spec_name()[3] == 'w' as u8);
            assert(st.spec_name()[4] == 'i' as u8);
            assert(st.spec_name()[5] == 's' as u8);
            assert(st.spec_name()[6] == 'e' as u8);
            assert(Stitch::Lcf1.spec_name()[0] == '1' as u8);
            assert(Stitch::Rcb1.spec_name()[0] == '1' as u8);
            assert(Stitch::Lcf2.spec_name()[0] == '2' as u8);
            assert(Stitch::Rcb2.spec_name()[0] == '2' as u8);
            assert(Stitch::Lcf3.spec_name()[0] == '3' as u8);
            assert(Stitch::Rcb3.spec_name()[0] == '3' as u8);
            assert(Stitch::Lcf4.spec_name()[0] == '4' as u8);
            assert(Stitch::Rcb4.spec_name()[0] == '4' as u8);
            assert(Stitch::Bead.spec_name()[0] == 'b' as u8);
            assert(Stitch::Bobble.spec_name()[0] == 'b' as u8);
            assert(Stitch::Bo.spec_name()[0] == 'b' as u8);
            assert(Stitch::Ktbl.spec_name()[0] == 'k' as u8);
            assert(Stitch::Kbf.spec_name()[0] == 'k' as u8);
            assert(Stitch::Kfb.spec_name()[0] == 'k' as u8);
            assert(Stitch::K2Tog.spec_name()[0] == 'k' as u8);
            assert(Stitch::K.spec_name()[0] == 'k' as u8);
        },
        Stitch::MKwise => {
            assert(st.spec_name()[0] == 'm' as u8);
            assert(st.spec_name()[1] == ' ' as u8);
            assert(st.spec_name()[2] == 'k' as u8);
            assert(st.spec_name()[3] == 'w' as u8);
            assert(st.spec_name()[4] == 'i' as u8);
            assert(st.spec_name()[5] == 's' as u8);
            assert(st.spec_name()[6] == 'e' as u8);
            assert(Stitch::Lcf1.spec_name()[0] == '1' as u8);
            assert(Stitch::Rcb1.spec_name()[0] == '1' as u8);
            assert(Stitch::Lcf2.spec_name()[0] == '2' as u8);
            assert(Stitch::Rcb2.spec_name()[0] == '2' as u8);
            assert(Stitch::Lcf3.spec_name()[0] == '3' as u8);
            assert(Stitch::Rcb3.spec_name()[0] == '3' as u8);
            assert(Stitch::Lcf4.spec_name()[0] == '4' as u8);
            assert(Stitch::Rcb4.spec_name()[0] == '4' as u8);
            assert(Stitch::Bead.spec_name()[0] == 'b' as u8);
            assert(Stitch::Bobble.spec_name()[0] == 'b' as u8);
            assert(Stitch::Bo.spec_name()[0] == 'b' as u8);
            assert(Stitch::Ktbl.spec_name()[0] == 'k' as u8);
            assert(Stitch::Kbf.spec_name()[0] == 'k' as u8);
            assert(Stitch::Kfb.spec_name()[0] == 'k' as u8);
            assert(Stitch::K2Tog.spec_name()[0] == 'k' as u8);
            assert(Stitch::K.spec_name()[0] == 'k' as u8);
            assert(Stitch::MPwise.spec_name()[2] == 'p' as u8);
        },
        Stitch::Ml => {
            assert(st.spec_name()[0] == 'm' as u8);
            assert(st.spec_name()[1] == 'l' as u8);
            assert(Stitch::Lcf1.spec_name()[0] == '1' as u8);
            assert(Stitch::Rcb1.spec_name()[0] == '1' as u8);
            assert(Stitch::Lcf2.spec_name()[0] == '2' as u8);
            assert(Stitch::Rcb2.spec_name()[0] == '2' as u8);
            assert(Stitch::Lcf3.spec_name()[0] == '3' as u8);
            assert(Stitch::Rcb3.spec_name()[0] == '3' as u8);
            assert(Stitch::Lcf4.spec_name()[0] == '4' as u8);
            assert(Stitch::Rcb4.spec_name()[0] == '4' as u8);
            assert(Stitch::Bead.spec_name()[0] == 'b' as u8);
            assert(Stitch::Bobble.spec_name()[0] == 'b' as u8);
            assert(Stitch::Bo.spec_name()[0] == 'b' as u8);
            assert(Stitch::Ktbl.spec_name()[0] == 'k' as u8);
            assert(Stitch::Kbf.spec_name()[0] == 'k' as u8);
            assert(Stitch::Kfb.spec_name()[0] == 'k' as u8);
            assert(Stitch::K2Tog.spec_name()[0] == 'k' as u8);
            assert(Stitch::K.spec_name()[0] == 'k' as u8);
            assert(Stitch::MPwise.spec_name()[1] == ' ' as u8);
            assert(Stitch::MKwise.spec_name()[1] == ' ' as u8);
        },
        Stitch::Mr => {
            assert(st.spec_name()[0] == 'm' as u8);
            assert(st.spec_name()[1] == 'r' as u8);
            assert(Stitch::Lcf1.spec_name()[0] == '1' as u8);
            assert(Stitch::Rcb1.spec_name()[0] == '1' as u8);
            assert(Stitch::Lcf2.spec_name()[0] == '2' as u8);
            assert(Stitch::Rcb2.spec_name()[0] == '2' as u8);
            assert(Stitch::Lcf3.spec_name()[0] == '3' as u8);
            assert(Stitch::Rcb3.spec_name()[0] == '3' as u8);
            assert(Stitch::Lcf4.spec_name()[0] == '4' as u8);
            assert(Stitch::Rcb4.spec_name()[0] == '4' as u8);
            assert(Stitch::Bead.spec_name()[0] == 'b' as u8);
            assert(Stitch::Bobble.spec_name()[0] == 'b' as u8);
            assert(Stitch::Bo.spec_name()[0] == 'b' as u8);
            assert(Stitch::Ktbl.spec_name()[0] == 'k' as u8);
            assert(Stitch::Kbf.spec_name()[0] == 'k' as u8);
            assert(Stitch::Kfb.spec_name()[0] == 'k' as u8);
            assert(Stitch::K2Tog.spec_name()[0] == 'k' as u8);
            assert(Stitch::K.spec_name()[0] == 'k' as u8);
            assert(Stitch::MPwise.spec_name()[1] == ' ' as u8);
            assert(Stitch::MKwise.spec_name()[1] == ' ' as u8);
            assert(Stitch::Ml.spec_name()[1] == 'l' as u8);
        },
        Stitch::Ptbl => {
            assert(st.spec_name()[0] == 'p' as u8);
            assert(st.spec_name()[1] == 't' as u8);
            assert(st.spec_name()[2] == 'b' as u8);
            assert(st.spec_name()[3] == 'l' as u8);
            assert(Stitch::Lcf1.spec_name()[0] == '1' as u8);
            assert(Stitch::Rcb1.spec_name()[0] == '1' as u8);
            assert(Stitch::Lcf2.spec_name()[0] == '2' as u8);
            assert(Stitch::Rcb2.spec_name()[0] == '2' as u8);
            assert(Stitch::Lcf3.spec_name()[0] == '3' as u8);
            assert(Stitch::Rcb3.spec_name()[0] == '3' as u8);
            assert(Stitch::Lcf4.spec_name()[0] == '4' as u8);
            assert(Stitch::Rcb4.spec_name()[0] == '4' as u8);
            assert(Stitch::Bead.spec_name()[0] == 'b' as u8);
            assert(Stitch::Bobble.spec_name()[0] == 'b' as u8);
            assert(Stitch::Bo.spec_name()[0] == 'b' as u8);
            assert(Stitch::Ktbl.spec_name()[0] == 'k' as u8);
            assert(Stitch::Kbf.spec_name()[0] == 'k' as u8);
            assert(Stitch::Kfb.spec_name()[0] == 'k' as u8);
            assert(Stitch::K2Tog.spec_name()[0] == 'k' as u8);
            assert(Stitch::K.spec_name()[0] == 'k' as u8);
            assert(Stitch::MPwise.spec_name()[0] == 'm' as u8);
            assert(Stitch::MKwise.spec_name()[0] == 'm' as u8);
            assert(Stitch::Ml.spec_name()[0] == 'm' as u8);
            assert(Stitch::Mr.spec_name()[0] == 'm' as u8);
        },
        Stitch::Pbf => {
            assert(st.spec_name()[0] == 'p' as u8);
            assert(st.spec_name()[1] == 'b' as u8);
            assert(st.spec_name()[2] == 'f' as u8);
            assert(Stitch::Lcf1.spec_name()[0] == '1' as u8);
            assert(Stitch::Rcb1.spec_name()[0] == '1' as u8);
            assert(Stitch::Lcf2.spec_name()[0] == '2' as u8);
            assert(Stitch::Rcb2.spec_name()[0] == '2' as u8);
            assert(Stitch::Lcf3.spec_name()[0] == '3' as u8);
            assert(Stitch::Rcb3.spec_name()[0] == '3' as u8);
            assert(Stitch::Lcf4.spec_name()[0] == '4' as u8);
            assert(Stitch::Rcb4.spec_name()[0] == '4' as u8);
            assert(Stitch::Bead.spec_name()[0] == 'b' as u8);
            assert(Stitch::Bobble.spec_name()[0] == 'b' as u8);
            assert(Stitch::Bo.spec_name()[0] == 'b' as u8);
            assert(Stitch::Ktbl.spec_name()[0] == 'k' as u8);
            assert(Stitch::Kbf.spec_name()[0] == 'k' as u8);
            assert(Stitch::Kfb.spec_name()[0] == 'k' as u8);
            assert(Stitch::K2Tog.spec_name()[0] == 'k' as u8);
            assert(Stitch::K.spec_name()[0] == 'k' as u8);
            assert(Stitch::MPwise.spec_name()[0] == 'm' as u8);
            assert(Stitch::MKwise.spec_name()[0] == 'm' as u8);
            assert(Stitch::Ml.spec_name()[0] == 'm' as u8);
            assert(Stitch::Mr.spec_name()[0] == 'm' as u8);
            assert(Stitch::Ptbl.spec_name()[1] == 't' as u8);
        },
        Stitch::Pfb => {
            assert(st.spec_name()[0] == 'p' as u8);
            assert(st.spec_name()[1] == 'f' as u8);
            assert(st.spec_name()[2] == 'b' as u8);
            assert(Stitch::Lcf1.spec_name()[0] == '1' as u8);
            assert(Stitch::Rcb1.spec_name()[0] == '1' as u8);
            assert(Stitch::Lcf2.spec_name()[0] == '2' as u8);
            assert(Stitch::Rcb2.spec_name()[0] == '2' as u8);
            assert(Stitch::Lcf3.spec_name()[0] == '3' as u8);
            assert(Stitch::Rcb3.spec_name()[0] == '3' as u8);
            assert(Stitch::Lcf4.spec_name()[0] == '4' as u8);
            assert(Stitch::Rcb4.spec_name()[0] == '4' as u8);
            assert(Stitch::Bead.spec_name()[0] == 'b' as u8);
            assert(Stitch::Bobble.spec_name()[0] == 'b' as u8);
            assert(Stitch::Bo.spec_name()[0] == 'b' as u8);
            assert(Stitch::Ktbl.spec_name()[0] == 'k' as u8);
            assert(Stitch::Kbf.spec_name()[0] == 'k' as u8);
            assert(Stitch::Kfb.spec_name()[0] == 'k' as u8);
            assert(Stitch::K2Tog.spec_name()[0] == 'k' as u8);
            assert(Stitch::K.spec_name()[0] == 'k' as u8);
            assert(Stitch::MPwise.spec_name()[0] == 'm' as u8);
            assert(Stitch::MKwise.spec_name()[0] == 'm' as u8);
            assert(Stitch::Ml.spec_name()[0] == 'm' as u8);
            assert(Stitch::Mr.spec_name()[0] == 'm' as u8);
            assert(Stitch::Ptbl.spec_name()[1] == 't' as u8);
            assert(Stitch::Pbf.spec_name()[1] == 'b' as u8);
        },
        Stitch::P2Tog => {
            assert(st.spec_name()[0] == 'p' as u8);
            assert(st.spec_name()[1] == '2' as u8);
            assert(st.spec_name()[2] == 't' as u8);
            assert(st.spec_name()[3] == 'o' as u8);
            assert(st.spec_name()[4] == 'g' as u8);
            assert(Stitch::Lcf1.spec_name()[0] == '1' as u8);
            assert(Stitch::Rcb1.spec_name()[0] == '1' as u8);
            assert(Stitch::Lcf2.spec_name()[0] == '2' as u8);
            assert(Stitch::Rcb2.spec_name()[0] == '2' as u8);
            assert(Stitch::Lcf3.spec_name()[0] == '3' as u8);
            assert(Stitch::Rcb3.spec_name()[0] == '3' as u8);
            assert(Stitch::Lcf4.spec_name()[0] == '4' as u8);
            assert(Stitch::Rcb4.spec_name()[0] == '4' as u8);
            assert(Stitch::Bead.spec_name()[0] == 'b' as u8);
            assert(Stitch::Bobble.spec_name()[0] == 'b' as u8);
            assert(Stitch::Bo.spec_name()[0] == 'b' as u8);
            assert(Stitch::Ktbl.spec_name()[0] == 'k' as u8);
            assert(Stitch::Kbf.spec_name()[0] == 'k' as u8);
            assert(Stitch::Kfb.spec_name()[0] == 'k' as u8);
            assert(Stitch::K2Tog.spec_name()[0] == 'k' as u8);
            assert(Stitch::K.spec_name()[0] == 'k' as u8);
            assert(Stitch::MPwise.spec_name()[0] == 'm' as u8);
            assert(Stitch::MKwise.spec_name()[0] == 'm' as u8);
            assert(Stitch::Ml.spec_name()[0] == 'm' as u8);
            assert(Stitch::Mr.spec_name()[0] == 'm' as u8);
            assert(Stitch::Ptbl.spec_name()[1] == 't' as u8);
            assert(Stitch::Pbf.spec_name()[1] == 'b' as u8);
            assert(Stitch::Pfb.spec_name()[1] == 'f' as u8);
        },
        Stitch::P => {
            assert(st.spec_name()[0] == 'p' as u8);
            assert(Stitch::Lcf1.spec_name()[0] == '1' as u8);
            assert(Stitch::Rcb1.spec_name()[0] == '1' as u8);
            assert(Stitch::Lcf2.spec_name()[0] == '2' as u8);
            assert(Stitch::Rcb2.spec_name()[0] == '2' as u8);
            assert(Stitch::Lcf3.spec_name()[0] == '3' as u8);
            assert(Stitch::Rcb3.spec_name()[0] == '3' as u8);
            assert(Stitch::Lcf4.spec_name()[0] == '4' as u8);
            assert(Stitch::Rcb4.spec_name()[0] == '4' as u8);
            assert(Stitch::Bead.spec_name()[0] == 'b' as u8);
            assert(Stitch::Bobble.spec_name()[0] == 'b' as u8);
            assert(Stitch::Bo.spec_name()[0] == 'b' as u8);
            assert(Stitch::Ktbl.spec_name()[0] == 'k' as u8);
            assert(Stitch::Kbf.spec_name()[0] == 'k' as u8);
            assert(Stitch::Kfb.spec_name()[0] == 'k' as u8);
            assert(Stitch::K2Tog.spec_name()[0] == 'k' as u8);
            assert(Stitch::K.spec_name()[0] == 'k' as u8);
            assert(Stitch::MPwise.spec_name()[0] == 'm' as u8);
            assert(Stitch::MKwise.spec_name()[0] == 'm' as u8);
            assert(Stitch::Ml.spec_name()[0] == 'm' as u8);
            assert(Stitch::Mr.spec_name()[0] == 'm' as u8);
            lemma_match_at_boundary(s, i, st.spec_name(), Stitch::Ptbl.spec_name());
            lemma_match_at_boundary(s, i, st.spec_name(), Stitch::Pbf.spec_name());
            lemma_match_at_boundary(s, i, st.spec_name(), Stitch::Pfb.spec_name());
            lemma_match_at_boundary(s, i, st.spec_name(), Stitch::P2Tog.spec_name());
        },
        Stitch::SlPwise => {
            assert(st.spec_name()[0] == 's' as u8);
            assert(st.spec_name()[1] == 'l' as u8);
            assert(st.spec_name()[2] == ' ' as u8);
            assert(st.spec_name()[3] == 'p' as u8);
            assert(st.spec_name()[4] == 'w' as u8);
            assert(st.spec_name()[5] == 'i' as u8);
            assert(st.spec_name()[6] == 's' as u8);
            assert(st.spec_name()[7] == 'e' as u8);
            assert(Stitch::Lcf1.spec_name()[0] == '1' as u8);
            assert(Stitch::Rcb1.spec_name()[0] == '1' as u8);
            assert(Stitch::Lcf2.spec_name()[0] == '2' as u8);
            assert(Stitch::Rcb2.spec_name()[0] == '2' as u8);
            assert(Stitch::Lcf3.spec_name()[0] == '3' as u8);
            assert(Stitch::Rcb3.spec_name()[0] == '3' as u8);
            assert(Stitch::Lcf4.spec_name()[0] == '4' as u8);
            assert(Stitch::Rcb4.spec_name()[0] == '4' as u8);
            assert(Stitch::Bead.spec_name()[0] == 'b' as u8);
            assert(Stitch::Bobble.spec_name()[0] == 'b' as u8);
            assert(Stitch::Bo.spec_name()[0] == 'b' as u8);
            assert(Stitch::Ktbl.spec_name()[0] == 'k' as u8);
            assert(Stitch::Kbf.spec_name()[0] == 'k' as u8);
            assert(Stitch::Kfb.spec_name()[0] == 'k' as u8);
            assert(Stitch::K2Tog.spec_name()[0] == 'k' as u8);
            assert(Stitch::K.spec_name()[0] == 'k' as u8);
            assert(Stitch::MPwise.spec_name()[0] == 'm' as u8);
            assert(Stitch::MKwise.spec_name()[0] == 'm' as u8);
            assert(Stitch::Ml.spec_name()[0] == 'm' as u8);
            assert(Stitch::Mr.spec_name()[0] == 'm' as u8);
            assert(Stitch::Ptbl.spec_name()[0] == 'p' as u8);
            assert(Stitch::Pbf.spec_name()[0] == 'p' as u8);
            assert(Stitch::Pfb.spec_name()[0] == 'p' as u8);
            assert(Stitch::P2Tog.spec_name()[0] == 'p' as u8);
            assert(Stitch::P.spec_name()[0] == 'p' as u8);
        },
        Stitch::SlKwise => {
            assert(st.spec_name()[0] == 's' as u8);
            assert(st.spec_name()[1] == 'l' as u8);
            assert(st.spec_name()[2] == ' ' as u8);
            assert(st.spec_name()[3] == 'k' as u8);
            assert(st.spec_name()[4] == 'w' as u8);
            assert(st.spec_name()[5] == 'i' as u8);
            assert(st.spec_name()[6] == 's' as u8);
            assert(st.spec_name()[7] == 'e' as u8);
            assert(Stitch::Lcf1.spec_name()[0] == '1' as u8);
            assert(Stitch::Rcb1.spec_name()[0] == '1' as u8);
            assert(Stitch::Lcf2.spec_name()[0] == '2' as u8);
            assert(Stitch::Rcb2.spec_name()[0] == '2' as u8);
            assert(Stitch::Lcf3.spec_name()[0] == '3' as u8);
            assert(Stitch::Rcb3.spec_name()[0] == '3' as u8);
            assert(Stitch::Lcf4.spec_name()[0] == '4' as u8);
            assert(Stitch::Rcb4.spec_name()[0] == '4' as u8);
            assert(Stitch::Bead.spec_name()[0] == 'b' as u8);
            assert(Stitch::Bobble.spec_name()[0] == 'b' as u8);
            assert(Stitch::Bo.spec_name()[0] == 'b' as u8);
            assert(Stitch::Ktbl.spec_name()[0] == 'k' as u8);
            assert(Stitch::Kbf.spec_name()[0] == 'k' as u8);
            assert(Stitch::Kfb.spec_name()[0] == 'k' as u8);
            assert(Stitch::K2Tog.spec_name()[0] == 'k' as u8);
            assert(Stitch::K.spec_name()[0] == 'k' as u8);
            assert(Stitch::MPwise.spec_name()[0] == 'm' as u8);
            assert(Stitch::MKwise.spec_name()[0] == 'm' as u8);
            assert(Stitch::Ml.spec_name()[0] == 'm' as u8);
            assert(Stitch::Mr.spec_name()[0] == 'm' as u8);
            assert(Stitch::Ptbl.spec_name()[0] == 'p' as u8);
            assert(Stitch::Pbf.spec_name()[0] == 'p' as u8);
            assert(Stitch::Pfb.spec_name()[0] == 'p' as u8);
            assert(Stitch::P2Tog.spec_name()[0] == 'p' as u8);
            assert(Stitch::P.spec_name()[0] == 'p' as u8);
            assert(Stitch::SlPwise.spec_name()[3] == 'p' as u8);
        },
        Stitch::Ssp => {
            assert(st.spec_name()[0] == 's' as u8);
            assert(st.spec_name()[1] == 's' as u8);
            assert(st.spec_name()[2] == 'p' as u8);
            assert(Stitch::Lcf1.spec_name()[0] == '1' as u8);
            assert(Stitch::Rcb1.spec_name()[0] == '1' as u8);
            assert(Stitch::Lcf2.spec_name()[0] == '2' as u8);
            assert(Stitch::Rcb2.spec_name()[0] == '2' as u8);
            assert(Stitch::Lcf3.spec_name()[0] == '3' as u8);
            assert(Stitch::Rcb3.spec_name()[0] == '3' as u8);
            assert(Stitch::Lcf4.spec_name()[0] == '4' as u8);
            assert(Stitch::Rcb4.spec_name()[0] == '4' as u8);
            assert(Stitch::Bead.spec_name()[0] == 'b' as u8);
            assert(Stitch::Bobble.spec_name()[0] == 'b' as u8);
            assert(Stitch::Bo.spec_name()[0] == 'b' as u8);
            assert(Stitch::Ktbl.spec_name()[0] == 'k' as u8);
            assert(Stitch::Kbf.spec_name()[0] == 'k' as u8);
            assert(Stitch::Kfb.spec_name()[0] == 'k' as u8);
            assert(Stitch::K2Tog.spec_name()[0] == 'k' as u8);
            assert(Stitch::K.spec_name()[0] == 'k' as u8);
            assert(Stitch::MPwise.spec_name()[0] == 'm' as u8);
            assert(Stitch::MKwise.spec_name()[0] == 'm' as u8);
            assert(Stitch::Ml.spec_name()[0] == 'm' as u8);
            assert(Stitch::Mr.spec_name()[0] == 'm' as u8);
            assert(Stitch::Ptbl.spec_name()[0] == 'p' as u8);
            assert(Stitch::Pbf.spec_name()[0] == 'p' as u8);
            assert(Stitch::Pfb.spec_name()[0] == 'p' as u8);
            assert(Stitch::P2Tog.spec_name()[0] == 'p' as u8);
            assert(Stitch::P.spec_name()[0] == 'p' as u8);
            assert(Stitch::SlPwise.spec_name()[1] == 'l' as u8);
            assert(Stitch::SlKwise.spec_name()[1] == 'l' as u8);
        },
        Stitch::Ssk => {
            assert(st.spec_name()[0] == 's' as u8);
            assert(st.spec_name()[1] == 's' as u8);
            assert(st.spec_name()[2] == 'k' as u8);
            assert(Stitch::Lcf1.spec_name()[0] == '1' as u8);
            assert(Stitch::Rcb1.spec_name()[0] == '1' as u8);
            assert(Stitch::Lcf2.spec_name()[0] == '2' as u8);
            assert(Stitch::Rcb2.spec_name()[0] == '2' as u8);
            assert(Stitch::Lcf3.spec_name()[0] == '3' as u8);
            assert(Stitch::Rcb3.spec_name()[0] == '3' as u8);
            assert(Stitch::Lcf4.spec_name()[0] == '4' as u8);
            assert(Stitch::Rcb4.spec_name()[0] == '4' as u8);
            assert(Stitch::Bead.spec_name()[0] == 'b' as u8);
            assert(Stitch::Bobble.spec_name()[0] == 'b' as u8);
            assert(Stitch::Bo.spec_name()[0] == 'b' as u8);
            assert(Stitch::Ktbl.spec_name()[0] == 'k' as u8);
            assert(Stitch::Kbf.spec_name()[0] == 'k' as u8);
            assert(Stitch::Kfb.spec_name()[0] == 'k' as u8);
            assert(Stitch::K2Tog.spec_name()[0] == 'k' as u8);
            assert(Stitch::K.spec_name()[0] == 'k' as u8);
            assert(Stitch::MPwise.spec_name()[0] == 'm' as u8);
            assert(Stitch::MKwise.spec_name()[0] == 'm' as u8);
            assert(Stitch::Ml.spec_name()[0] == 'm' as u8);
            assert(Stitch::Mr.spec_name()[0] == 'm' as u8);
            assert(Stitch::Ptbl.spec_name()[0] == 'p' as u8);
            assert(Stitch::Pbf.spec_name()[0] == 'p' as u8);
            assert(Stitch::Pfb.spec_name()[0] == 'p' as u8);
            assert(Stitch::P2Tog.spec_name()[0] == 'p' as u8);
            assert(Stitch::P.spec_name()[0] == 'p' as u8);
            assert(Stitch::SlPwise.spec_name()[1] == 'l' as u8);
            assert(Stitch::SlKwise.spec_name()[1] == 'l' as u8);
            assert(Stitch::Ssp.spec_name()[2] == 'p' as u8);
        },
        Stitch::NoStitch => {
            assert(st.spec_name()[0] == 'n' as u8);
            assert(st.spec_name()[1] == 'o' as u8);
            assert(st.spec_name()[2] == 's' as u8);
            assert(st.spec_name()[3] == 't' as u8);
            assert(st.spec_name()[4] == 'i' as u8);
            assert(st.spec_name()[5] == 't' as u8);
            assert(st.spec_name()[6] == 'c' as u8);
            assert(st.spec_name()[7] == 'h' as u8);
            assert(Stitch::Lcf1.spec_name()[0] == '1' as u8);
            assert(Stitch::Rcb1.spec_name()[0] == '1' as u8);
            assert(Stitch::Lcf2.spec_name()[0] == '2' as u8);
            assert(Stitch::Rcb2.spec_name()[0] == '2' as u8);
            assert(Stitch::Lcf3.spec_name()[0] == '3' as u8);
            assert(Stitch::Rcb3.spec_name()[0] == '3' as u8);
            assert(Stitch::Lcf4.spec_name()[0] == '4' as u8);
            assert(Stitch::Rcb4.spec_name()[0] == '4' as u8);
            assert(Stitch::Bead.spec_name()[0] == 'b' as u8);
            assert(Stitch::Bobble.spec_name()[0] == 'b' as u8);
            assert(Stitch::Bo.spec_name()[0] == 'b' as u8);
            assert(Stitch::Ktbl.spec_name()[0] == 'k' as u8);
            assert(Stitch::Kbf.spec_name()[0] == 'k' as u8);
            assert(Stitch::Kfb.spec_name()[0] == 'k' as u8);
            assert(Stitch::K2Tog.spec_name()[0] == 'k' as u8);
            assert(Stitch::K.spec_name()[0] == 'k' as u8);
            assert(Stitch::MPwise.spec_name()[0] == 'm' as u8);
            assert(Stitch::MKwise.spec_name()[0] == 'm' as u8);
            assert(Stitch::Ml.spec_name()[0] == 'm' as u8);
            assert(Stitch::Mr.spec_name()[0] == 'm' as u8);
            assert(Stitch::Ptbl.spec_name()[0] == 'p' as u8);
            assert(Stitch::Pbf.spec_name()[0] == 'p' as u8);
            assert(Stitch::Pfb.spec_name()[0] == 'p' as u8);
            assert(Stitch::P2Tog.spec_name()[0] == 'p' as u8);
            assert(Stitch::P.spec_name()[0] == 'p' as u8);
            assert(Stitch::SlPwise.spec_name()[0] == 's' as u8);
            assert(Stitch::SlKwise.spec_name()[0] == 's' as u8);
            assert(Stitch::Ssp.spec_name()[0] == 's' as u8);
            assert(Stitch::Ssk.spec_name()[0] == 's' as u8);
        },
        Stitch::Yo => {
            assert(st.spec_name()[0] == 'y' as u8);
            assert(st.spec_name()[1] == 'o' as u8);
            assert(Stitch::Lcf1.spec_name()[0] == '1' as u8);
            assert(Stitch::Rcb1.spec_name()[0] == '1' as u8);
            assert(Stitch::Lcf2.spec_name()[0] == '2' as u8);
            assert(Stitch::Rcb2.spec_name()[0] == '2' as u8);
            assert(Stitch::Lcf3.spec_name()[0] == '3' as u8);
            assert(Stitch::Rcb3.spec_name()[0] == '3' as u8);
            assert(Stitch::Lcf4.spec_name()[0] == '4' as u8);
            assert(Stitch::Rcb4.spec_name()[0] == '4' as u8);
            assert(Stitch::Bead.spec_name()[0] == 'b' as u8);
            assert(Stitch::Bobble.spec_name()[0] == 'b' as u8);
            assert(Stitch::Bo.spec_name()[0] == 'b' as u8);
            assert(Stitch::Ktbl.spec_name()[0] == 'k' as u8);
            assert(Stitch::Kbf.spec_name()[0] == 'k' as u8);
            assert(Stitch::Kfb.spec_name()[0] == 'k' as u8);
            assert(Stitch::K2Tog.spec_name()[0] == 'k' as u8);
            assert(Stitch::K.spec_name()[0] == 'k' as u8);
            assert(Stitch::MPwise.spec_name()[0] == 'm' as u8);
            assert(Stitch::MKwise.spec_name()[0] == 'm' as u8);
            assert(Stitch::Ml.spec_name()[0] == 'm' as u8);
            assert(Stitch::Mr.spec_name()[0] == 'm' as u8);
            assert(Stitch::Ptbl.spec_name()[0] == 'p' as u8);
            assert(Stitch::Pbf.spec_name()[0] == 'p' as u8);
            assert(Stitch::Pfb.spec_name()[0] == 'p' as u8);
            assert(Stitch::P2Tog.spec_name()[0] == 'p' as u8);
            assert(Stitch::P.spec_name()[0] == 'p' as u8);
            assert(Stitch::SlPwise.spec_name()[0] == 's' as u8);
            assert(Stitch::SlKwise.spec_name()[0] == 's' as u8);
            assert(Stitch::Ssp.spec_name()[0] == 's' as u8);
            assert(Stitch::Ssk.spec_name()[0] == 's' as u8);
            assert(Stitch::NoStitch.spec_name()[0] == 'n' as u8);
        },
    }
}

/// After a full canonical suffix, the list continuation consumes it all and
/// appends exactly its tokens.
#[verifier::rlimit(60)]
proof fn lemma_canon_rest_parses(s: Seq<u8>, i: int, acc: Seq<Stitch>, toks: Seq<Stitch>)
    requires
        0 <= i <= s.len(),
        s.skip(i) == canon_rest(toks),
    ensures
        spec_group_list_more(s, i, acc) == (s.len() as int, acc + toks),
    decreases toks.len(),
{
    if toks.len() == 0 {
        assert(s.len() - i == 0);
        assert(acc + toks =~= acc);
    } else {
        let st = toks[0];
        let name = st.spec_name();
        let nlen = name.len() as int;
        let rest = canon_rest(toks.skip(1));
        lemma_name_first_byte(st);
        // The bytes at and after `i`.
        assert(canon_rest(toks) == seq![',' as u8, ' ' as u8] + name + rest);
        assert(s.skip(i).len() == s.len() - i);
        assert(s.len() - i == 2 + nlen + rest.len());
        assert(s[i] == ',' as u8) by {
            assert(s.skip(i)[0] == s[i]);
        }
        assert(s[i + 1] == ' ' as u8) by {
            assert(s.skip(i)[1] == s[i + 1]);
        }
        assert forall|j: int| 0 <= j < nlen implies s[i + 2 + j] == name[j] by {
            assert(s.skip(i)[2 + j] == s[i + 2 + j]);
        }
        // Whitespace stops at the name's first byte.
        assert(s[i + 2] == name[0]);
        assert(!is_space(s[i + 2]));
        assert(spec_skip_space(s, i + 2) == i + 2);
        assert(spec_skip_space(s, i + 1) == i + 2);
        // The element at `i + 1` is not a group.
        assert(s[i + 2] != '(' as u8);
        assert(spec_group(s, i + 1) is None);
        // It is the stitch token itself.
        assert(match_at(s, i + 2, name));
        let after = i + 2 + nlen;
        if toks.skip(1).len() == 0 {
            assert(after == s.len());
        } else {
            assert(s[after] == ',' as u8) by {
                assert(s.skip(i)[2 + nlen] == s[after]);
            }
        }
        lemma_token_at(s, i + 2, st);
        assert(spec_skip_space(s, after) == after);
        assert(spec_multiplier(s, after) is None);
        assert(spec_stitch_elem(s, i + 1) == Some((after, seq![st])));
        assert(spec_element(s, i + 1) == Some((after, seq![st])));
        // The rest of the line is the canonical text of the remaining tokens.
        assert(s.skip(after) =~= rest) by {
            assert forall|j: int| 0 <= j < s.len() - after implies s.skip(after)[j] == rest[j]
                by {
                assert(s.skip(i)[2 + nlen + j] == s[after + j]);
                assert(s.skip(after)[j] == s[after + j]);
            }
        }
        lemma_canon_rest_parses(s, after, acc + seq![st], toks.skip(1));
        assert(acc + seq![st] + toks.skip(1) =~= acc + toks);
        assert(spec_group_list_more(s, i, acc) == spec_group_list_more(s, after, acc + seq![st]));
    }
}

/// Parsing the canonical text of any token sequence consumes it fully and
/// yields exactly that sequence.
#[verifier::rlimit(60)]
pub proof fn lemma_canon_round_trip(toks: Seq<Stitch>)
    ensures
        spec_parse_line(canon(toks)) == (canon(toks).len() as int, toks),
{
    let s = canon(toks);
    if toks.len() == 0 {
        assert(spec_stitch_token(s, 0) is None);
        assert(spec_group_list(s, 0) == (0int, Seq::<Stitch>::empty()));
        assert(spec_group_list(s, 0) == (s.len() as int, toks));
    } else {
        let st = toks[0];
        let name = st.spec_name();
        let nlen = name.len() as int;
        let rest = canon_rest(toks.skip(1));
        lemma_name_first_byte(st);
        assert(canon(toks) == name + rest);
        assert(s.len() == nlen + rest.len());
        assert forall|j: int| 0 <= j < nlen implies s[j] == name[j] by {
            assert(s[j] == (name + rest)[j]);
        }
        assert(s[0] == name[0]);
        assert(!is_space(s[0]));
        assert(spec_skip_space(s, 0) == 0);
        assert(s[0] != '(' as u8);
        assert(spec_group(s, 0) is None);
        assert(match_at(s, 0, name));
        if toks.skip(1).len() == 0 {
            assert(nlen == s.len());
        } else {
            assert(s[nlen] == ',' as u8) by {
                assert(s[nlen] == (name + rest)[nlen]);
            }
        }
        lemma_token_at(s, 0, st);
        assert(spec_skip_space(s, nlen) == nlen);
        assert(spec_multiplier(s, nlen) is None);
        assert(spec_stitch_elem(s, 0) == Some((nlen, seq![st])));
        assert(spec_element(s, 0) == Some((nlen, seq![st])));
        assert(s.skip(nlen) =~= rest) by {
            assert forall|j: int| 0 <= j < s.len() - nlen implies s.skip(nlen)[j] == rest[j] by {
                assert(s.skip(nlen)[j] == s[nlen + j]);
                assert(s[nlen + j] == (name + rest)[nlen + j]);
            }
        }
        lemma_canon_rest_parses(s, nlen, seq![st], toks.skip(1));
        assert(seq![st] + toks.skip(1) =~= toks);
        assert(spec_group_list(s, 0) == spec_group_list_more(s, nlen, seq![st]));
    }
}

/// Idempotent canonicalization: for a valid stitch line, parsing it,
/// serializing the tokens to canonical text and re-parsing yields the same
/// token sequence (and the canonical text is itself a valid stitch line).
pub proof fn lemma_parse_canon_parse(l: Seq<u8>)
    requires
        spec_parse_line(l).0 == l.len(),
    ensures
        spec_parse_line(canon(spec_parse_line(l).1)).0 == canon(spec_parse_line(l).1).len(),
        spec_parse_line(canon(spec_parse_line(l).1)).1 == spec_parse_line(l).1,
{
    lemma_canon_round_trip(spec_parse_line(l).1);
}

} // verus!

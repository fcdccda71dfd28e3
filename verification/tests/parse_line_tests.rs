use std::collections::VecDeque;

use knitting_parse::parse_stitches;
use knitting_parse::ParseErrorType;
use knitting_parse::Stitch::{
    Bead, Bo, Bobble, K, K2Tog, Kbf, Kfb, Ktbl, Lcf1, Lcf2, Lcf3, Lcf4, MKwise, MPwise, Ml, Mr,
    NoStitch, P, P2Tog, Pbf, Pfb, Ptbl, Rcb1, Rcb2, Rcb3, Rcb4, SlKwise, SlPwise, Ssk, Ssp, Yo,
};

#[test]
fn simple_parse() {
    let stitches = parse_stitches("k, k2tog", 0).unwrap();
    assert_eq!(stitches, vec![K, K2Tog]);
}

#[test]
fn parse_line_simple_exception() {
    if let Err(parse_error) = parse_stitches("k, p, bad", 2) {
        assert_eq!(parse_error.line_number(), 2);

        // 'k, p' will parse
        // ', bad' will not
        if let ParseErrorType::InvalidSyntaxRange(range_start, range_end) =
            parse_error.error_type()
        {
            assert_eq!(*range_start, 4);
            assert_eq!(*range_end, 8);
        } else {
            assert!(false, "Wrong error type returned");
        }
    } else {
        assert!(false, "Should not have parsed");
    }
}

#[test]
fn with_modifier() {
    let stitches = parse_stitches("sl kwise", 0).unwrap();
    assert_eq!(stitches, VecDeque::from(vec![SlKwise]));
}

#[test]
fn with_multipler() {
    let stitches = parse_stitches("k x3", 0).unwrap();
    assert_eq!(stitches, VecDeque::from(vec![K; 3]));
}

#[test]
fn group() {
    let stitches = parse_stitches("(k, p)", 0).unwrap();
    assert_eq!(stitches, VecDeque::from(vec![K, P]));
}

#[test]
fn embeded_group() {
    let stitches = parse_stitches("(k, (p, k))", 0).unwrap();
    assert_eq!(stitches, VecDeque::from(vec![K, P, K]));
}

#[test]
fn group_multiplier() {
    let stitches = parse_stitches("(k, p) x2", 0).unwrap();
    assert_eq!(stitches, VecDeque::from(vec![K, P, K, P]));
}

#[test]
fn embeded_group_multiplier() {
    let stitches = parse_stitches("(k, (p, k) x2) x2", 0).unwrap();
    assert_eq!(stitches.len(), 10);
    assert_eq!(stitches, VecDeque::from(vec![K, P, K, P, K, K, P, K, P, K]));
}

#[test]
fn outer_group_by_one() {
    let stitches = parse_stitches("(k, (p, k)) x1", 0).unwrap();
    assert_eq!(stitches, VecDeque::from(vec![K, P, K]));
}

#[test]
fn outer_group_doubled() {
    let stitches = parse_stitches("(k, (p, k)) x2", 0).unwrap();
    assert_eq!(stitches.len(), 6);
    assert_eq!(stitches, VecDeque::from(vec![K, P, K, K, P, K]));
}

#[test]
fn empty_line_has_no_stitches() {
    let stitches = parse_stitches("", 0).unwrap();
    assert_eq!(stitches, VecDeque::new());
}

#[test]
fn zero_multiplier_yields_nothing() {
    let stitches = parse_stitches("k x0", 0).unwrap();
    assert_eq!(stitches, VecDeque::new());
}

#[test]
fn every_stitch_name_parses() {
    let names = vec![
        ("k", K),
        ("p", P),
        ("k2tog", K2Tog),
        ("p2tog", P2Tog),
        ("ssk", Ssk),
        ("ssp", Ssp),
        ("sl kwise", SlKwise),
        ("sl pwise", SlPwise),
        ("yo", Yo),
        ("bo", Bo),
        ("mr", Mr),
        ("ml", Ml),
        ("m kwise", MKwise),
        ("m pwise", MPwise),
        ("kfb", Kfb),
        ("kbf", Kbf),
        ("pfb", Pfb),
        ("pbf", Pbf),
        ("ktbl", Ktbl),
        ("ptbl", Ptbl),
        ("nostitch", NoStitch),
        ("bobble", Bobble),
        ("bead", Bead),
        ("1lcf", Lcf1),
        ("1rcb", Rcb1),
        ("2lcf", Lcf2),
        ("2rcb", Rcb2),
        ("3lcf", Lcf3),
        ("3rcb", Rcb3),
        ("4lcf", Lcf4),
        ("4rcb", Rcb4),
    ];
    for (name, stitch) in names {
        let stitches = parse_stitches(name, 0).unwrap();
        assert_eq!(stitches, VecDeque::from(vec![stitch]), "for name {}", name);
    }
}

#[test]
fn unparsable_suffix_reaches_line_end() {
    // Only `k` parses; the rest of the line is reported even though it holds
    // more valid-looking text after the bad token.
    let parse_error = parse_stitches("k, zz, p", 1).unwrap_err();
    if let ParseErrorType::InvalidSyntaxRange(range_start, range_end) = parse_error.error_type() {
        assert_eq!(*range_start, 1);
        assert_eq!(*range_end, 7);
    } else {
        assert!(false, "Wrong error type returned");
    }
}

#[test]
fn whitespace_is_insignificant() {
    let stitches = parse_stitches("  k \t,  p  ", 0).unwrap();
    assert_eq!(stitches, VecDeque::from(vec![K, P]));
}

#[test]
fn unclosed_group_fails_from_its_start() {
    let parse_error = parse_stitches("(k, p", 1).unwrap_err();
    if let ParseErrorType::InvalidSyntaxRange(range_start, range_end) = parse_error.error_type() {
        assert_eq!(*range_start, 0);
        assert_eq!(*range_end, 4);
    } else {
        assert!(false, "Wrong error type returned");
    }
}

#[test]
fn whitespace_after_a_multiplier() {
    let stitches = parse_stitches("k x3 ", 0).unwrap();
    assert_eq!(stitches, VecDeque::from(vec![K, K, K]));

    let stitches = parse_stitches("k x3 , p", 0).unwrap();
    assert_eq!(stitches, VecDeque::from(vec![K, K, K, P]));

    let stitches = parse_stitches("(k, p) x2 \t", 0).unwrap();
    assert_eq!(stitches, VecDeque::from(vec![K, P, K, P]));
}

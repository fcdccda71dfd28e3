use std::collections::VecDeque;

use knitting_parse::canonical_line;
use knitting_parse::extract_parse_error_type;
use knitting_parse::into_parse_error;
use knitting_parse::parse_stitches;
use knitting_parse::widths_fit;
use knitting_parse::ParseError;
use knitting_parse::ParseErrorType;
use knitting_parse::Side;
use knitting_parse::Stitch;
use knitting_parse::Stitch::{K, Lcf1, Lcf2, Lcf3, Lcf4, NoStitch, Rcb1, Rcb2, Rcb3, Rcb4};

#[test]
fn canonical_text_of_a_parsed_line() {
    let stitches = parse_stitches("(k, (p, k)) x2, yo,2lcf", 0).unwrap();
    let text = String::from_utf8(canonical_line(&stitches)).unwrap();
    assert_eq!(text, "k, p, k, k, p, k, yo, 2lcf");
}

#[test]
fn reparsing_canonical_text_is_idempotent() {
    let inputs = vec![
        "k, k2tog",
        "(k, (p, k) x2) x2",
        "sl kwise, m pwise x2, (bobble) x3",
        "1lcf,2rcb,  nostitch x2",
        "",
    ];
    for input in inputs {
        let stitches = parse_stitches(input, 0).unwrap();
        let text = String::from_utf8(canonical_line(&stitches)).unwrap();
        let reparsed = parse_stitches(&text, 0).unwrap();
        assert_eq!(reparsed, stitches, "for input {:?}", input);
        // Canonical text is already canonical: serializing again changes nothing.
        let text_again = String::from_utf8(canonical_line(&reparsed)).unwrap();
        assert_eq!(text_again, text, "for input {:?}", input);
    }
}

#[test]
fn switch_alternates_only_when_flat() {
    assert_eq!(Side::RS.switch(false), Side::WS);
    assert_eq!(Side::WS.switch(false), Side::RS);
    assert_eq!(Side::RS.switch(true), Side::RS);
    assert_eq!(Side::WS.switch(true), Side::WS);
}

#[test]
fn stitch_widths_by_kind() {
    assert_eq!(K.width(), 1);
    assert_eq!(NoStitch.width(), 1);
    assert_eq!(Lcf1.width(), 2);
    assert_eq!(Rcb1.width(), 2);
    assert_eq!(Lcf2.width(), 4);
    assert_eq!(Rcb2.width(), 4);
    assert_eq!(Lcf3.width(), 6);
    assert_eq!(Rcb3.width(), 6);
    assert_eq!(Lcf4.width(), 8);
    assert_eq!(Rcb4.width(), 8);
}

#[test]
fn read_failure_error_carries_its_cause() {
    let parse_error = ParseError::new(
        ParseErrorType::UnableToReadFromReader(String::from("stream closed")),
        7,
    );
    assert_eq!(parse_error.line_number(), 7);
    if let ParseErrorType::UnableToReadFromReader(cause) = parse_error.error_type() {
        assert_eq!(cause.as_str(), "stream closed");
    } else {
        assert!(false, "Wrong error type returned");
    }
}

#[test]
fn error_range_from_remainder() {
    let error_type = extract_parse_error_type("k, p, bad", ", bad");
    if let ParseErrorType::InvalidSyntaxRange(range_start, range_end) = error_type {
        assert_eq!(range_start, 4);
        assert_eq!(range_end, 8);
    } else {
        assert!(false, "Wrong error type returned");
    }

    let parse_error = into_parse_error("k, p, bad", ", bad", 2);
    assert_eq!(parse_error.line_number(), 2);
    if let ParseErrorType::InvalidSyntaxRange(range_start, range_end) = parse_error.error_type() {
        assert_eq!(*range_start, 4);
        assert_eq!(*range_end, 8);
    } else {
        assert!(false, "Wrong error type returned");
    }
}

#[test]
fn ordinary_patterns_fit() {
    let input = vec![
        String::from("## in_round"),
        String::from("k x30"),
        String::from("(p, k) x12"),
    ];
    assert!(widths_fit(&input));
}

#[test]
fn canonical_line_of_no_stitches_is_empty() {
    let stitches: VecDeque<Stitch> = VecDeque::new();
    assert_eq!(canonical_line(&stitches), Vec::<u8>::new());
}

use std::collections::VecDeque;

use knitting_parse::ParseErrorType;
use knitting_parse::Pattern;
use knitting_parse::Side;
use knitting_parse::Stitch::{K, Lcf1, NoStitch, P, Rcb1};

#[test]
fn simple_pattern() {
    let input = vec![String::from("k x5"), String::from("k x7")];
    let pattern = Pattern::new(&input).unwrap();

    assert_eq!(
        pattern.lines(),
        &vec![
            VecDeque::from(vec![NoStitch, K, K, K, K, K, NoStitch]),
            VecDeque::from(vec![K; 7]),
        ]
    );
}

#[test]
fn stitch_widths() {
    let input = vec![String::from("k x4"), String::from("1lcf, 1rcb")];
    let pattern = Pattern::new(&input).unwrap();

    assert_eq!(
        pattern.lines(),
        &vec![VecDeque::from(vec![K, K, K, K]), VecDeque::from(vec![Lcf1, Rcb1])]
    );
}

#[test]
fn pattern_simple_exception() {
    let input = vec![String::from("k x6"), String::from("k x7")];

    if let Err(parse_error) = Pattern::new(&input) {
        if let ParseErrorType::InvalidStitchCount(count) = parse_error.error_type() {
            assert_eq!(*count, 6);
        } else {
            assert!(false, "Wrong error type returned");
        }
    } else {
        assert!(false, "Should not have been valid");
    }
}

#[test]
fn rectangular_by_construction() {
    let input = vec![
        String::from("k"),
        String::from("1lcf, p"),
        String::from("k, p, k, p, k"),
    ];
    let pattern = Pattern::new(&input).unwrap();
    assert_eq!(pattern.pattern_width(), 5);
    for line in pattern.lines() {
        let width: usize = line.iter().map(|stitch| stitch.width()).sum();
        assert_eq!(width, pattern.pattern_width());
    }
}

#[test]
fn empty_pattern_has_width_zero() {
    let input: Vec<String> = Vec::new();
    let pattern = Pattern::new(&input).unwrap();
    assert_eq!(pattern.pattern_width(), 0);
    assert!(pattern.lines().is_empty());
}

#[test]
fn directives_and_comments() {
    let input = vec![
        String::from("## first_line=3"),
        String::from("# just a note, ignored"),
        String::from("## in_round"),
        String::from("k, p"),
    ];
    let pattern = Pattern::new(&input).unwrap();
    assert_eq!(pattern.first_line_number(), 3);
    assert!(pattern.in_round());
    assert_eq!(pattern.starting_side(), Side::RS);
    assert_eq!(pattern.pattern_width(), 2);
    assert_eq!(pattern.lines(), &vec![VecDeque::from(vec![K, P])]);
}

#[test]
fn starting_side_directive() {
    let input = vec![String::from("## start_wrong_side"), String::from("p")];
    let pattern = Pattern::new(&input).unwrap();
    assert_eq!(pattern.starting_side(), Side::WS);
}

#[test]
fn bad_line_is_tagged_with_its_number() {
    let input = vec![String::from("k"), String::from("k, bad")];
    let parse_error = Pattern::new(&input).unwrap_err();
    assert_eq!(parse_error.line_number(), 2);
    if let ParseErrorType::InvalidSyntaxRange(range_start, range_end) = parse_error.error_type() {
        assert_eq!(*range_start, 1);
        assert_eq!(*range_end, 5);
    } else {
        assert!(false, "Wrong error type returned");
    }
}

#[test]
fn stitch_count_error_carries_source_line_number() {
    // The odd-deficit line is "k x6": source line 2, even though it is the
    // first stitch line of the pattern.
    let input = vec![
        String::from("# six, then seven"),
        String::from("k x6"),
        String::from("k x7"),
    ];
    let parse_error = Pattern::new(&input).unwrap_err();
    assert_eq!(parse_error.line_number(), 2);
    if let ParseErrorType::InvalidStitchCount(count) = parse_error.error_type() {
        assert_eq!(*count, 6);
    } else {
        assert!(false, "Wrong error type returned");
    }
}

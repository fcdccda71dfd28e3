use knitting_parse::Options;
use knitting_parse::ParseErrorType;
use knitting_parse::Side;

#[test]
fn in_round() {
    let mut options = Options::default();
    options.parse_options("## in_round", 0).unwrap();
    assert!(options.in_round);
}

#[test]
fn line_number() {
    let mut options = Options::default();
    options.parse_options("## first_line=3", 0).unwrap();
    assert_eq!(options.first_line_number, 3);
}

#[test]
fn start_wrong() {
    let mut options = Options::default();
    options.parse_options("## start_wrong_side", 0).unwrap();
    assert_eq!(options.starting_side, Side::WS);
}

#[test]
fn defaults() {
    let options = Options::default();
    assert_eq!(options.first_line_number, 1);
    assert_eq!(options.starting_side, Side::RS);
    assert!(!options.in_round);
}

#[test]
fn empty_directive_changes_nothing() {
    let mut options = Options::default();
    options.parse_options("##", 4).unwrap();
    options.parse_options("##   ", 5).unwrap();
    assert_eq!(options.first_line_number, 1);
    assert_eq!(options.starting_side, Side::RS);
    assert!(!options.in_round);
}

#[test]
fn unknown_directive_is_an_error() {
    let mut options = Options::default();
    let parse_error = options.parse_options("## in_the_round", 3).unwrap_err();
    assert_eq!(parse_error.line_number(), 3);
    if let ParseErrorType::InvalidSyntaxRange(range_start, range_end) = parse_error.error_type() {
        // The range runs from just after the marker through the end of line.
        assert_eq!(*range_start, 2);
        assert_eq!(*range_end, 14);
    } else {
        assert!(false, "Wrong error type returned");
    }
    // A failed directive leaves the options unchanged.
    assert!(!options.in_round);
}

#[test]
fn trailing_content_is_an_error() {
    let mut options = Options::default();
    assert!(options.parse_options("## in_round extra", 1).is_err());
    assert!(options.parse_options("## first_line=", 2).is_err());
    assert!(options.parse_options("## first_line=3x", 3).is_err());
    assert!(!options.in_round);
    assert_eq!(options.first_line_number, 1);
}

#[test]
fn several_directives_on_one_line() {
    let mut options = Options::default();
    options.parse_options("## in_round first_line=3", 0).unwrap();
    assert!(options.in_round);
    assert_eq!(options.first_line_number, 3);

    let mut options = Options::default();
    options
        .parse_options("## first_line=5 start_wrong_side in_round", 0)
        .unwrap();
    assert_eq!(options.first_line_number, 5);
    assert_eq!(options.starting_side, Side::WS);
    assert!(options.in_round);
}

#[test]
fn directives_in_any_order() {
    let mut options = Options::default();
    options.parse_options("## start_wrong_side in_round", 0).unwrap();
    let mut reordered = Options::default();
    reordered.parse_options("## in_round start_wrong_side", 0).unwrap();
    assert_eq!(options.starting_side, reordered.starting_side);
    assert_eq!(options.in_round, reordered.in_round);
}

#[test]
fn bad_token_among_directives_is_an_error() {
    let mut options = Options::default();
    let parse_error = options.parse_options("## in_round bogus", 6).unwrap_err();
    assert_eq!(parse_error.line_number(), 6);
    assert!(matches!(
        parse_error.error_type(),
        ParseErrorType::InvalidSyntaxRange(2, 16)
    ));
    // A failed line leaves the options untouched, even its valid prefix.
    assert!(!options.in_round);
}

use thirtyday::parse::{parse_args, parse_shift, Invocation, ParseError};

fn args(tokens: &[&str]) -> Vec<String> {
    tokens.iter().map(|t| t.to_string()).collect()
}

#[test]
fn no_arguments_yield_an_empty_run() {
    match parse_args(&args(&[])) {
        Invocation::Run(req) => {
            assert!(req.words.is_empty());
            assert_eq!(req.shift, 0);
            assert!(!req.with_date);
        }
        _ => panic!("expected a run"),
    }
}

#[test]
fn words_are_collected_in_order() {
    match parse_args(&args(&["drink", "more", "water"])) {
        Invocation::Run(req) => {
            assert_eq!(req.words, vec!["drink", "more", "water"]);
            assert_eq!(req.shift, 0);
        }
        _ => panic!("expected a run"),
    }
}

#[test]
fn shift_flag_consumes_the_next_token() {
    match parse_args(&args(&["-s", "12", "hello"])) {
        Invocation::Run(req) => {
            assert_eq!(req.shift, 12);
            assert_eq!(req.words, vec!["hello"]);
        }
        _ => panic!("expected a run"),
    }
}

#[test]
fn later_shift_flag_wins() {
    match parse_args(&args(&["-s", "3", "-s", "4"])) {
        Invocation::Run(req) => assert_eq!(req.shift, 4),
        _ => panic!("expected a run"),
    }
}

#[test]
fn date_flag_sets_annotation_without_consuming() {
    match parse_args(&args(&["-d", "week", "1"])) {
        Invocation::Run(req) => {
            assert!(req.with_date);
            assert_eq!(req.words, vec!["week", "1"]);
        }
        _ => panic!("expected a run"),
    }
}

#[test]
fn missing_shift_value_is_reported() {
    match parse_args(&args(&["-s"])) {
        Invocation::Fail(e) => {
            assert_eq!(e, ParseError::MissingShiftValue);
            assert_eq!(
                e.message(),
                "Flag -s requires a digit afterwards, for number of days to shift"
            );
        }
        _ => panic!("expected a failure"),
    }
}

#[test]
fn non_numeric_shift_is_reported() {
    match parse_args(&args(&["-s", "abc"])) {
        Invocation::Fail(e) => assert_eq!(e, ParseError::ShiftNotDecimal),
        _ => panic!("expected a failure"),
    }
}

#[test]
fn empty_shift_is_reported() {
    match parse_args(&args(&["-s", ""])) {
        Invocation::Fail(e) => assert_eq!(e, ParseError::EmptyShiftValue),
        _ => panic!("expected a failure"),
    }
}

#[test]
fn oversized_shift_is_reported() {
    match parse_args(&args(&["-s", "300"])) {
        Invocation::Fail(e) => assert_eq!(e, ParseError::ShiftTooLarge),
        _ => panic!("expected a failure"),
    }
}

#[test]
fn help_flag_stops_the_scan_anywhere() {
    assert!(matches!(parse_args(&args(&["-h"])), Invocation::Help));
    assert!(matches!(parse_args(&args(&["a", "-h", "b"])), Invocation::Help));
    assert!(matches!(parse_args(&args(&["-s", "-h"])), Invocation::Help));
    assert!(matches!(parse_args(&args(&["--help"])), Invocation::HelpLong));
}

#[test]
fn flags_are_recognized_while_a_shift_value_is_expected() {
    match parse_args(&args(&["-s", "-d", "9"])) {
        Invocation::Run(req) => {
            assert!(req.with_date);
            assert_eq!(req.shift, 9);
            assert!(req.words.is_empty());
        }
        _ => panic!("expected a run"),
    }
}

#[test]
fn parse_shift_accepts_the_full_range() {
    assert_eq!(parse_shift("0"), Ok(0));
    assert_eq!(parse_shift("42"), Ok(42));
    assert_eq!(parse_shift("255"), Ok(255));
    assert_eq!(parse_shift("+7"), Ok(7));
    assert_eq!(parse_shift("007"), Ok(7));
}

#[test]
fn parse_shift_rejects_what_is_no_small_number() {
    assert_eq!(parse_shift(""), Err(ParseError::EmptyShiftValue));
    assert_eq!(parse_shift("+"), Err(ParseError::ShiftNotDecimal));
    assert_eq!(parse_shift("1x"), Err(ParseError::ShiftNotDecimal));
    assert_eq!(parse_shift("-1"), Err(ParseError::ShiftNotDecimal));
    assert_eq!(parse_shift("256"), Err(ParseError::ShiftTooLarge));
    assert_eq!(parse_shift("99999999999999999999"), Err(ParseError::ShiftTooLarge));
}

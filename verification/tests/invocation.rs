use thirtyday::date::Date;
use thirtyday::run::{run, run_core};
use thirtyday::weekday::Weekday;

fn args(tokens: &[&str]) -> Vec<String> {
    tokens.iter().map(|t| t.to_string()).collect()
}

const USAGE: &str = "usage: thirtyday [-s DAYS] MESSAGE...";

#[test]
fn short_help_prints_the_usage_and_succeeds() {
    let r = run(&args(&["-h"]));
    assert_eq!(r.out, vec![USAGE]);
    assert!(r.err.is_empty());
    assert!(r.ok);
}

#[test]
fn long_help_prints_the_help_text_and_succeeds() {
    let r = run(&args(&["--help"]));
    assert_eq!(r.out.len(), 1);
    assert!(r.out[0].starts_with("thirtyday - generate a 'checkbox' for a 30-day challenge"));
    assert!(r.out[0].contains(USAGE));
    assert!(r.out[0].contains("[WTFSS MTWTFSS MTWTFSS MTWTFSS MTWT]"));
    assert!(r.err.is_empty());
    assert!(r.ok);
}

#[test]
fn missing_shift_value_prints_the_error_and_usage_and_no_checkbox() {
    let r = run(&args(&["-s"]));
    assert!(r.out.is_empty());
    assert_eq!(
        r.err,
        vec![
            "Flag -s requires a digit afterwards, for number of days to shift".to_string(),
            USAGE.to_string(),
        ]
    );
    assert!(!r.ok);
}

#[test]
fn non_numeric_shift_prints_the_error_and_usage_and_no_checkbox() {
    let r = run(&args(&["-s", "abc"]));
    assert!(r.out.is_empty());
    assert_eq!(r.err.len(), 2);
    assert_eq!(r.err[0], "invalid digit in number of days to shift");
    assert_eq!(r.err[1], USAGE);
    assert!(!r.ok);
}

#[test]
fn plain_run_prints_only_the_checkbox_line() {
    let r = run(&args(&[]));
    assert!(r.err.is_empty());
    assert!(r.ok);
    assert_eq!(r.out.len(), 1);
    let line = &r.out[0];
    assert!(line.starts_with('['));
    assert!(line.ends_with(']'));
    let inner = &line[1..line.len() - 1];
    assert_eq!(inner.chars().filter(|c| *c != ' ').count(), 30);
    let seps = inner.chars().filter(|c| *c == ' ').count();
    assert!(seps == 4 || seps == 5);
}

#[test]
fn run_with_message_prints_the_message_line_first() {
    let r = run(&args(&["drink", "more", "water"]));
    assert!(r.ok);
    assert_eq!(r.out.len(), 2);
    assert_eq!(r.out[0], "drink more water");
    assert!(r.out[1].starts_with('['));
}

#[test]
fn run_with_date_annotation_prefixes_a_date_range() {
    let r = run(&args(&["-d", "week", "1"]));
    assert!(r.ok);
    assert_eq!(r.out.len(), 2);
    assert!(r.out[0].contains(" to "));
    assert!(r.out[0].ends_with(" -- week 1"));
    assert!(r.out[1].starts_with('['));
}

#[test]
fn run_with_date_annotation_moves_the_end_date() {
    let r = run(&args(&["-d"]));
    assert!(r.ok);
    assert_eq!(r.out.len(), 2);
    let range = &r.out[0];
    let (start, end) = range.split_once(" to ").expect("a date range");
    assert_ne!(start, end);
    for date in [start, end] {
        assert_eq!(date.len(), 10);
        assert_eq!(date.as_bytes()[4], b'-');
        assert_eq!(date.as_bytes()[7], b'-');
    }
}

#[test]
fn run_core_on_a_wednesday_prints_the_example_template() {
    let r = run_core(Weekday::Wednesday, &args(&[]), 0, false, None);
    assert!(r.ok);
    assert!(r.err.is_empty());
    assert_eq!(r.out, vec!["[WTFSS MTWTFSS MTWTFSS MTWTFSS MTWT]"]);
}

#[test]
fn run_core_shifts_the_start_weekday() {
    let r = run_core(Weekday::Monday, &args(&[]), 2, false, None);
    assert_eq!(r.out, vec!["[WTFSS MTWTFSS MTWTFSS MTWTFSS MTWT]"]);
}

#[test]
fn run_core_with_fixed_dates_builds_the_exact_message() {
    let start = Date { year: 2024, month: 1, day: 1 };
    let end = Date { year: 2024, month: 1, day: 31 };
    let r = run_core(Weekday::Monday, &args(&["week", "1"]), 0, true, Some((start, end)));
    assert!(r.ok);
    assert_eq!(r.out.len(), 2);
    assert_eq!(r.out[0], "2024-01-01 to 2024-01-31 -- week 1");
    assert_eq!(r.out[1], "[MTWTFSS MTWTFSS MTWTFSS MTWTFSS MT]");
}

#[test]
fn run_core_reports_unrepresentable_dates() {
    let r = run_core(Weekday::Monday, &args(&[]), 0, true, None);
    assert!(!r.ok);
    assert!(r.out.is_empty());
    assert_eq!(r.err, vec!["the start and end dates are out of range"]);
}

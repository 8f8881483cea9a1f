use thirtyday::date::Date;
use thirtyday::message::{build_message, join_words};

fn words(tokens: &[&str]) -> Vec<String> {
    tokens.iter().map(|t| t.to_string()).collect()
}

#[test]
fn join_words_uses_single_spaces() {
    assert_eq!(join_words(&words(&[])), "");
    assert_eq!(join_words(&words(&["water"])), "water");
    assert_eq!(join_words(&words(&["drink", "more", "water"])), "drink more water");
}

#[test]
fn format_date_pads_to_four_and_two_digits() {
    let d = Date { year: 2024, month: 1, day: 31 };
    assert_eq!(thirtyday::date::format_date(&d), "2024-01-31");
    let d = Date { year: 987, month: 3, day: 4 };
    assert_eq!(thirtyday::date::format_date(&d), "0987-03-04");
    let d = Date { year: 12345, month: 12, day: 9 };
    assert_eq!(thirtyday::date::format_date(&d), "12345-12-09");
    let d = Date { year: -44, month: 3, day: 15 };
    assert_eq!(thirtyday::date::format_date(&d), "-0044-03-15");
}

#[test]
fn message_without_annotation_is_the_joined_words() {
    assert_eq!(build_message(&words(&["week", "1"]), None), "week 1");
    assert_eq!(build_message(&words(&[]), None), "");
}

#[test]
fn annotated_message_prefixes_the_date_range() {
    let start = Date { year: 2024, month: 1, day: 1 };
    let end = Date { year: 2024, month: 1, day: 31 };
    assert_eq!(
        build_message(&words(&["week", "1"]), Some((start, end))),
        "2024-01-01 to 2024-01-31 -- week 1"
    );
}

#[test]
fn annotated_message_without_words_is_the_date_range_alone() {
    let start = Date { year: 2024, month: 2, day: 28 };
    let end = Date { year: 2024, month: 3, day: 29 };
    assert_eq!(build_message(&words(&[]), Some((start, end))), "2024-02-28 to 2024-03-29");
}

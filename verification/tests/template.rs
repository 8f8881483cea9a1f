use thirtyday::checkbox::{bracketed_template, template};
use thirtyday::weekday::Weekday;

fn letters_only(s: &str) -> String {
    s.chars().filter(|c| *c != ' ').collect()
}

#[test]
fn template_starting_wednesday_matches_example() {
    let t = template(Weekday::Wednesday);
    assert_eq!(t, "WTFSS MTWTFSS MTWTFSS MTWTFSS MTWT");
}

#[test]
fn bracketed_template_starting_wednesday_matches_example() {
    let t = bracketed_template(Weekday::Wednesday);
    assert_eq!(t, "[WTFSS MTWTFSS MTWTFSS MTWTFSS MTWT]");
}

#[test]
fn template_starting_monday() {
    let t = template(Weekday::Monday);
    assert_eq!(t, "MTWTFSS MTWTFSS MTWTFSS MTWTFSS MT");
}

#[test]
fn template_starting_sunday_has_five_separators() {
    let t = template(Weekday::Sunday);
    assert_eq!(t, "S MTWTFSS MTWTFSS MTWTFSS MTWTFSS M");
    assert_eq!(t.chars().filter(|c| *c == ' ').count(), 5);
}

#[test]
fn template_has_four_separators_for_non_sunday_starts() {
    for day in [
        Weekday::Monday,
        Weekday::Tuesday,
        Weekday::Wednesday,
        Weekday::Thursday,
        Weekday::Friday,
        Weekday::Saturday,
    ] {
        let t = template(day);
        assert_eq!(t.chars().filter(|c| *c == ' ').count(), 4);
    }
}

#[test]
fn template_always_holds_thirty_letters() {
    for day in [
        Weekday::Monday,
        Weekday::Tuesday,
        Weekday::Wednesday,
        Weekday::Thursday,
        Weekday::Friday,
        Weekday::Saturday,
        Weekday::Sunday,
    ] {
        assert_eq!(letters_only(&template(day)).len(), 30);
    }
}

#[test]
fn template_core_letters_follow_consecutive_weekdays() {
    for start in [
        Weekday::Monday,
        Weekday::Tuesday,
        Weekday::Wednesday,
        Weekday::Thursday,
        Weekday::Friday,
        Weekday::Saturday,
        Weekday::Sunday,
    ] {
        for shift in [0u8, 1, 6, 7, 13, 100, 255] {
            let shifted = start.shifted(shift);
            let core = letters_only(&template(shifted));
            let mut day = shifted;
            for (i, c) in core.chars().enumerate() {
                assert_eq!(c, day.letter(), "day {} of shift {}", i, shift);
                day = day.succ();
            }
        }
    }
}

#[test]
fn space_follows_exactly_the_sundays_except_the_last_day() {
    for start in [
        Weekday::Monday,
        Weekday::Tuesday,
        Weekday::Wednesday,
        Weekday::Thursday,
        Weekday::Friday,
        Weekday::Saturday,
        Weekday::Sunday,
    ] {
        let t: Vec<char> = template(start).chars().collect();
        let mut day = start;
        let mut pos = 0usize;
        for i in 0..30usize {
            assert_eq!(t[pos], day.letter());
            let closes = day == Weekday::Sunday && i != 29;
            if closes {
                assert_eq!(t[pos + 1], ' ');
                pos += 2;
            } else {
                assert!(pos + 1 == t.len() || t[pos + 1] != ' ');
                pos += 1;
            }
            day = day.succ();
        }
        assert_eq!(pos, t.len());
    }
}

#[test]
fn shifted_wraps_cyclically() {
    assert_eq!(Weekday::Monday.shifted(0), Weekday::Monday);
    assert_eq!(Weekday::Monday.shifted(3), Weekday::Thursday);
    assert_eq!(Weekday::Monday.shifted(7), Weekday::Monday);
    assert_eq!(Weekday::Saturday.shifted(2), Weekday::Monday);
    assert_eq!(Weekday::Monday.shifted(255), Weekday::Thursday);
}

#[test]
fn weekday_letters_collide_as_designed() {
    assert_eq!(Weekday::Monday.letter(), 'M');
    assert_eq!(Weekday::Tuesday.letter(), 'T');
    assert_eq!(Weekday::Wednesday.letter(), 'W');
    assert_eq!(Weekday::Thursday.letter(), 'T');
    assert_eq!(Weekday::Friday.letter(), 'F');
    assert_eq!(Weekday::Saturday.letter(), 'S');
    assert_eq!(Weekday::Sunday.letter(), 'S');
}

#[test]
fn succ_wraps_sunday_to_monday() {
    assert_eq!(Weekday::Sunday.succ(), Weekday::Monday);
    assert_eq!(Weekday::Monday.succ(), Weekday::Tuesday);
}

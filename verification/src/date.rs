//! Calendar dates as plain year, month and day numbers, their `YYYY-MM-DD`
//! rendering, and the two calls into `chrono` that the date annotation
//! needs: reading today's date once, and moving a date forward by days.

use vstd::prelude::*;
use crate::num::{append_dec_pad2, append_dec_pad4, padded_dec_seq};
use crate::weekday::Weekday;

verus! {

/// The lowest year a date may hold: the lowest `chrono::NaiveDate` holds.
pub const MIN_YEAR: i32 = -262143;

/// The highest year a date may hold: the highest `chrono::NaiveDate` holds.
pub const MAX_YEAR: i32 = 262142;

/// A calendar date as plain year, month and day numbers.
#[derive(Clone, Copy, PartialEq, Eq, Structural, Debug)]
pub struct Date {
    /// The proleptic Gregorian year.
    pub year: i32,
    /// The month, 1..=12.
    pub month: u8,
    /// The day of the month, 1..=31.
    pub day: u8,
}

/// The mathematical value of a date.
pub ghost struct DateView {
    /// The proleptic Gregorian year.
    pub year: int,
    /// The month, 1..=12.
    pub month: int,
    /// The day of the month, 1..=31.
    pub day: int,
}

impl View for Date {
    type V = DateView;

    open spec fn view(&self) -> DateView {
        DateView { year: self.year as int, month: self.month as int, day: self.day as int }
    }
}

/// The field bounds every date of this library keeps.
pub open spec fn date_wf(d: DateView) -> bool {
    &&& MIN_YEAR <= d.year <= MAX_YEAR
    &&& 1 <= d.month <= 12
    &&& 1 <= d.day <= 31
}

impl Date {
    /// The field bounds every date of this library keeps.
    pub open spec fn wf(self) -> bool {
        date_wf(self@)
    }
}

/// A date formatted `YYYY-MM-DD`: the month and day two digits each, the
/// year four (more digits for years beyond four of them, and a leading
/// minus for years before year zero).
pub open spec fn spec_format_date(d: DateView) -> Seq<char> {
    (if d.year < 0 {
        seq!['-'] + padded_dec_seq((-d.year) as nat, 4)
    } else {
        padded_dec_seq(d.year as nat, 4)
    }) + seq!['-'] + padded_dec_seq(d.month as nat, 2) + seq!['-'] + padded_dec_seq(
        d.day as nat,
        2,
    )
}

/// Formats a date as `YYYY-MM-DD`.
pub fn format_date(d: &Date) -> (s: String)
    requires
        d.wf(),
    ensures
        s@ == spec_format_date(d@),
{
    let mut s = String::new();
    proof {
        reveal_strlit("-");
        assert(("-")@ =~= seq!['-']);
    }
    if d.year < 0 {
        s.append("-");
        append_dec_pad4(&mut s, (-(d.year)) as u32);
    } else {
        append_dec_pad4(&mut s, d.year as u32);
    }
    s.append("-");
    append_dec_pad2(&mut s, d.month as u32);
    s.append("-");
    append_dec_pad2(&mut s, d.day as u32);
    proof {
        assert(s@ =~= spec_format_date(d@));
    }
    s
}

/// What `chrono` computes for `Datelike::weekday`: the number (Monday = 0)
/// of the weekday on which the calendar date `year-month-day` falls; a
/// function of the date alone.
pub uninterp spec fn weekday_number_of(year: int, month: int, day: int) -> int;

/// What `chrono` computes for `NaiveDate::checked_add_days`: the calendar
/// date `n` days after `d`; a function of its arguments alone.
pub uninterp spec fn date_after_days(d: DateView, n: int) -> DateView;

/// Today's date and weekday, read once from the system clock, in UTC.
///
/// Relies on `chrono::Utc::now` and, on its date, `chrono::Datelike`'s
/// `year`, `month`, `day` (documented to lie in `NaiveDate`'s year range,
/// 1..=12 and 1..=31) and `weekday`, which is the weekday of that same
/// date, numbered here with Monday = 0.
#[verifier::external_body]
pub(crate) fn today_utc() -> (r: (Date, Weekday))
    ensures
        r.0.wf(),
        r.1.as_int() == weekday_number_of(r.0@.year, r.0@.month, r.0@.day),
{
    let now = chrono::Utc::now().date_naive();
    let (y, m) = (chrono::Datelike::year(&now), chrono::Datelike::month(&now) as u8);
    let date = Date { year: y, month: m, day: chrono::Datelike::day(&now) as u8 };
    let wd = match chrono::Datelike::weekday(&now) {
        chrono::Weekday::Mon => Weekday::Monday,
        chrono::Weekday::Tue => Weekday::Tuesday,
        chrono::Weekday::Wed => Weekday::Wednesday,
        chrono::Weekday::Thu => Weekday::Thursday,
        chrono::Weekday::Fri => Weekday::Friday,
        chrono::Weekday::Sat => Weekday::Saturday,
        chrono::Weekday::Sun => Weekday::Sunday,
    };
    (date, wd)
}

/// The date `n` days after `d`, or `None` when the fields of `d` name no
/// real calendar date or the moved date cannot be represented.
///
/// Relies on `chrono::NaiveDate::from_ymd_opt` and
/// `chrono::NaiveDate::checked_add_days`, with `Datelike`'s documented
/// field ranges as under `today_utc`.
#[verifier::external_body]
pub(crate) fn date_plus_days(d: &Date, n: u32) -> (r: Option<Date>)
    ensures
        r matches Some(d2) ==> d2.wf() && d2@ == date_after_days(d@, n as int),
{
    let nd = chrono::NaiveDate::from_ymd_opt(d.year, d.month as u32, d.day as u32)?;
    let moved = nd.checked_add_days(chrono::Days::new(n as u64))?;
    Some(Date {
        year: chrono::Datelike::year(&moved),
        month: chrono::Datelike::month(&moved) as u8,
        day: chrono::Datelike::day(&moved) as u8,
    })
}

} // verus!

//! One invocation, end to end: parse the arguments, read today once,
//! compute the annotated dates if asked for, and produce the lines to
//! print on standard output and standard error.

use vstd::prelude::*;
use crate::checkbox::{bracketed_template, day_number, spec_bracketed, CHALLENGE_DAYS};
use crate::date::{
    date_after_days, date_plus_days, date_wf, today_utc, weekday_number_of, DateView,
};
use crate::message::{build_message, dates_view, spec_message};
use crate::parse::{parse_args, spec_parse_args, Invocation, Outcome};
use crate::usage::{spec_usage, spec_usage_long, usage, usage_long};
use crate::views_of;
use crate::weekday::Weekday;

verus! {

/// What one invocation prints, and whether it succeeded.
#[derive(Debug)]
pub struct RunOutput {
    /// The lines for standard output.
    pub out: Vec<String>,
    /// The lines for standard error.
    pub err: Vec<String>,
    /// Whether the invocation succeeded.
    pub ok: bool,
}

/// The mathematical value of a run's outcome.
#[verifier::ext_equal]
pub ghost struct RunView {
    /// The lines for standard output.
    pub out: Seq<Seq<char>>,
    /// The lines for standard error.
    pub err: Seq<Seq<char>>,
    /// Whether the invocation succeeded.
    pub ok: bool,
}

impl View for RunOutput {
    type V = RunView;

    open spec fn view(&self) -> RunView {
        RunView { out: views_of(self.out@), err: views_of(self.err@), ok: self.ok }
    }
}

/// The error printed when the annotated dates cannot be represented.
pub open spec fn spec_date_error() -> Seq<char> {
    "the start and end dates are out of range"@
}

/// The error printed when the annotated dates cannot be represented.
pub fn date_error() -> (s: String)
    ensures
        s@ == spec_date_error(),
{
    String::from_str("the start and end dates are out of range")
}

/// What a normal run prints: the message on its own line when it is not
/// empty, then the bracketed template for the start weekday.
pub open spec fn spec_normal(start: int, msg: Seq<char>) -> RunView {
    RunView {
        out: (if msg.len() == 0 {
            Seq::empty()
        } else {
            seq![msg]
        }) + seq![spec_bracketed(start)],
        err: Seq::empty(),
        ok: true,
    }
}

/// What a run yields, given today's weekday number, the request, and the
/// start and end dates computed for the annotation (`None` when no
/// annotation was asked for, or when the dates cannot be represented).
pub open spec fn spec_run(
    w0: int,
    shift: u8,
    words: Seq<Seq<char>>,
    with_date: bool,
    dates: Option<(DateView, DateView)>,
) -> RunView {
    if with_date && dates is None {
        RunView { out: Seq::empty(), err: seq![spec_date_error()], ok: false }
    } else {
        spec_normal(
            day_number(w0, shift as int),
            spec_message(
                words,
                if with_date {
                    dates
                } else {
                    Option::None
                },
            ),
        )
    }
}

/// Computes a normal run's output from today's weekday, the request, and
/// the dates computed for the annotation.
pub fn run_core(
    today: Weekday,
    words: &Vec<String>,
    shift: u8,
    with_date: bool,
    dates: Option<(crate::date::Date, crate::date::Date)>,
) -> (r: RunOutput)
    requires
        dates matches Some(p) ==> p.0.wf() && p.1.wf(),
    ensures
        r@ == spec_run(today.as_int(), shift, views_of(words@), with_date, dates_view(dates)),
{
    if with_date && dates.is_none() {
        let mut err: Vec<String> = Vec::new();
        err.push(date_error());
        let r = RunOutput { out: Vec::new(), err, ok: false };
        proof {
            assert(r@ =~= spec_run(
                today.as_int(),
                shift,
                views_of(words@),
                with_date,
                dates_view(dates),
            ));
        }
        return r;
    }
    let msg = build_message(
        words,
        if with_date {
            dates
        } else {
            None
        },
    );
    let start = today.shifted(shift);
    let line = bracketed_template(start);
    let mut out: Vec<String> = Vec::new();
    if !msg.as_str().is_empty() {
        out.push(msg);
    }
    out.push(line);
    let r = RunOutput { out, err: Vec::new(), ok: true };
    proof {
        assert(r@ =~= spec_run(
            today.as_int(),
            shift,
            views_of(words@),
            with_date,
            dates_view(dates),
        ));
    }
    r
}

/// Whether `r` is the outcome of a normal run for some valid date `t`
/// read as today: the weekday is the one `chrono` gives for `t`, and the
/// annotated dates, where present, are `t` moved by the shift and then by
/// the length of the challenge.
pub open spec fn run_witness(
    r: RunView,
    shift: u8,
    words: Seq<Seq<char>>,
    with_date: bool,
    t: DateView,
    dates: Option<(DateView, DateView)>,
) -> bool {
    &&& date_wf(t)
    &&& 0 <= weekday_number_of(t.year, t.month, t.day) < 7
    &&& (dates matches Some(p) ==> p.0 == date_after_days(t, shift as int) && p.1
        == date_after_days(p.0, CHALLENGE_DAYS as int))
    &&& (!with_date ==> dates is None)
    &&& r == spec_run(weekday_number_of(t.year, t.month, t.day), shift, words, with_date, dates)
}

/// Whether `r` is the outcome of a normal run for some valid date read
/// as today.
pub open spec fn normal_outcome(
    r: RunView,
    shift: u8,
    words: Seq<Seq<char>>,
    with_date: bool,
) -> bool {
    exists|t: DateView, dates: Option<(DateView, DateView)>|
        run_witness(r, shift, words, with_date, t, dates)
}

/// Runs one invocation. The help and error outcomes are stated exactly;
/// a normal run's output is `spec_run`'s for today's date, read once from
/// the clock. A rejected argument list counts as a failed invocation, so
/// that a caller can end with a non-zero status.
pub fn run(args: &Vec<String>) -> (r: RunOutput)
    ensures
        ({
            let out = spec_parse_args(views_of(args@));
            &&& (out == Outcome::Help ==> r@ == RunView {
                out: seq![spec_usage()],
                err: Seq::empty(),
                ok: true,
            })
            &&& (out == Outcome::HelpLong ==> r@ == RunView {
                out: seq![spec_usage_long()],
                err: Seq::empty(),
                ok: true,
            })
            &&& (out matches Outcome::Fail(e) ==> r@ == RunView {
                out: Seq::empty(),
                err: seq![e.spec_message(), spec_usage()],
                ok: false,
            })
            &&& (out matches Outcome::Run { words, shift, with_date } ==> normal_outcome(
                r@,
                shift,
                words,
                with_date,
            ))
        }),
{
    match parse_args(args) {
        Invocation::Help => {
            let mut out: Vec<String> = Vec::new();
            out.push(usage());
            let r = RunOutput { out, err: Vec::new(), ok: true };
            proof {
                assert(r@ =~= RunView { out: seq![spec_usage()], err: Seq::empty(), ok: true });
            }
            r
        },
        Invocation::HelpLong => {
            let mut out: Vec<String> = Vec::new();
            out.push(usage_long());
            let r = RunOutput { out, err: Vec::new(), ok: true };
            proof {
                assert(r@ =~= RunView {
                    out: seq![spec_usage_long()],
                    err: Seq::empty(),
                    ok: true,
                });
            }
            r
        },
        Invocation::Fail(e) => {
            let mut err: Vec<String> = Vec::new();
            err.push(e.message());
            err.push(usage());
            let r = RunOutput { out: Vec::new(), err, ok: false };
            proof {
                assert(r@ =~= RunView {
                    out: Seq::empty(),
                    err: seq![e.spec_message(), spec_usage()],
                    ok: false,
                });
            }
            r
        },
        Invocation::Run(req) => {
            let (today, wd) = today_utc();
            let dates = if req.with_date {
                match date_plus_days(&today, req.shift as u32) {
                    Some(range_start) => match date_plus_days(&range_start, CHALLENGE_DAYS as u32) {
                        Some(range_end) => Some((range_start, range_end)),
                        None => None,
                    },
                    None => None,
                }
            } else {
                None
            };
            let r = run_core(wd, &req.words, req.shift, req.with_date, dates);
            proof {
                wd.lemma_as_int_range();
                assert(run_witness(
                    r@,
                    req.shift,
                    views_of(req.words@),
                    req.with_date,
                    today@,
                    dates_view(dates),
                ));
                assert(normal_outcome(r@, req.shift, views_of(req.words@), req.with_date));
            }
            r
        },
    }
}

} // verus!

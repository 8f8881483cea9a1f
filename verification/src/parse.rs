//! Argument parsing: the help flags, the day-shift flag `-s` with its
//! decimal value, the date-annotation flag `-d`, and the free-text message
//! words, scanned left to right.

use vstd::prelude::*;
use crate::num::{all_digits, digits_val, is_digit};
use crate::views_of;

verus! {

/// Why an argument list was rejected.
#[derive(Clone, Copy, PartialEq, Eq, Structural, Debug)]
pub enum ParseError {
    /// The shift flag stood last, with nothing after it.
    MissingShiftValue,
    /// The shift value was the empty string.
    EmptyShiftValue,
    /// The shift value held a character that is no decimal digit.
    ShiftNotDecimal,
    /// The shift value was a number larger than the accepted range.
    ShiftTooLarge,
}

impl ParseError {
    /// The description printed for this error.
    pub open spec fn spec_message(self) -> Seq<char> {
        match self {
            ParseError::MissingShiftValue => "Flag -s requires a digit afterwards, for number of days to shift"@,
            ParseError::EmptyShiftValue => "cannot parse number of days to shift from empty string"@,
            ParseError::ShiftNotDecimal => "invalid digit in number of days to shift"@,
            ParseError::ShiftTooLarge => "number of days to shift is too large"@,
        }
    }

    /// The description printed for this error.
    pub fn message(&self) -> (s: String)
        ensures
            s@ == self.spec_message(),
    {
        match self {
            ParseError::MissingShiftValue => String::from_str(
                "Flag -s requires a digit afterwards, for number of days to shift",
            ),
            ParseError::EmptyShiftValue => String::from_str(
                "cannot parse number of days to shift from empty string",
            ),
            ParseError::ShiftNotDecimal => String::from_str(
                "invalid digit in number of days to shift",
            ),
            ParseError::ShiftTooLarge => String::from_str(
                "number of days to shift is too large",
            ),
        }
    }
}

/// What parsing a shift value yields: the value of its digit string (an
/// optional leading `+` is allowed), if it names a non-negative number of
/// days no larger than 255; otherwise the reason it does not.
pub open spec fn parse_shift_spec(s: Seq<char>) -> Result<u8, ParseError> {
    if s.len() == 0 {
        Err(ParseError::EmptyShiftValue)
    } else {
        let body = if s[0] == '+' {
            s.subrange(1, s.len() as int)
        } else {
            s
        };
        if body.len() == 0 || !all_digits(body) {
            Err(ParseError::ShiftNotDecimal)
        } else if digits_val(body) > 255 {
            Err(ParseError::ShiftTooLarge)
        } else {
            Ok(digits_val(body) as u8)
        }
    }
}

/// Parses a day-shift value.
pub fn parse_shift(s: &str) -> (r: Result<u8, ParseError>)
    ensures
        r == parse_shift_spec(s@),
{
    let n = s.unicode_len();
    if n == 0 {
        return Err(ParseError::EmptyShiftValue);
    }
    let first = s.get_char(0);
    let offset: usize = if first == '+' {
        1
    } else {
        0
    };
    let ghost body = if s@[0] == '+' {
        s@.subrange(1, s@.len() as int)
    } else {
        s@
    };
    proof {
        assert(body =~= s@.subrange(offset as int, s@.len() as int));
    }
    if n == offset {
        return Err(ParseError::ShiftNotDecimal);
    }
    let mut i: usize = offset;
    let mut val: u32 = 0;
    let mut over: bool = false;
    while i < n
        invariant
            offset <= i <= n,
            n == s@.len(),
            s@.len() > 0,
            offset as int == (if s@[0] == '+' {
                1int
            } else {
                0int
            }),
            n > offset,
            body == s@.subrange(offset as int, n as int),
            forall|j: int| 0 <= j < i - offset ==> is_digit(body[j]),
            !over ==> val <= 255 && val == digits_val(body.subrange(0, i - offset)),
            over ==> digits_val(body.subrange(0, i - offset)) > 255,
        decreases n - i,
    {
        let c = s.get_char(i);
        let u = c as u32;
        if u < 48 || u > 57 {
            proof {
                assert(0 <= i - offset < body.len());
                assert(body[i - offset] == s@[i as int]);
                assert(!is_digit(body[i - offset]));
                assert(!all_digits(body));
            }
            return Err(ParseError::ShiftNotDecimal);
        }
        let d = u - 48;
        let ghost pre = body.subrange(0, i - offset);
        if !over {
            val = val * 10 + d;
            if val > 255 {
                over = true;
            }
        }
        i = i + 1;
        proof {
            let cur = body.subrange(0, i - offset);
            assert(cur =~= pre.push(c));
            assert(cur.drop_last() =~= pre);
            assert(digits_val(cur) == digits_val(pre) * 10 + (c as u32 - 48));
        }
    }
    proof {
        assert(body.subrange(0, n - offset) =~= body);
    }
    if over {
        Err(ParseError::ShiftTooLarge)
    } else {
        Ok(val as u8)
    }
}

/// The accumulator of the argument scan.
pub ghost struct ParseState {
    /// The free-text words seen so far.
    pub words: Seq<Seq<char>>,
    /// The day shift captured so far.
    pub shift: u8,
    /// Whether the date-annotation flag was seen.
    pub with_date: bool,
    /// Whether the shift flag was just seen, so that the next token must
    /// be its value.
    pub waiting: bool,
}

/// The state before any token is read.
pub open spec fn init_state() -> ParseState {
    ParseState { words: Seq::empty(), shift: 0, with_date: false, waiting: false }
}

/// What scanning an argument list yields.
pub ghost enum Outcome {
    /// `-h` was seen: print the short usage and stop at once, successfully.
    Help,
    /// `--help` was seen: print the long help and stop at once, successfully.
    HelpLong,
    /// A normal invocation: the message words, the day shift, and whether
    /// the message carries the date range.
    Run { words: Seq<Seq<char>>, shift: u8, with_date: bool },
    /// The arguments were rejected.
    Fail(ParseError),
}

/// The argument scan, token by token and left to right. The help flags
/// stop the scan at once, wherever they stand; the flags `-d` and `-s`
/// are recognized even where a shift value is expected; any other token
/// is the shift value if one is expected, else a message word.
pub open spec fn parse_tokens(toks: Seq<Seq<char>>, st: ParseState) -> Outcome
    decreases toks.len(),
{
    if toks.len() == 0 {
        if st.waiting {
            Outcome::Fail(ParseError::MissingShiftValue)
        } else {
            Outcome::Run { words: st.words, shift: st.shift, with_date: st.with_date }
        }
    } else {
        let t = toks[0];
        let rest = toks.subrange(1, toks.len() as int);
        if t == "-h"@ {
            Outcome::Help
        } else if t == "--help"@ {
            Outcome::HelpLong
        } else if t == "-d"@ {
            parse_tokens(rest, ParseState { with_date: true, ..st })
        } else if t == "-s"@ {
            parse_tokens(rest, ParseState { waiting: true, ..st })
        } else if st.waiting {
            match parse_shift_spec(t) {
                Ok(v) => parse_tokens(rest, ParseState { shift: v, waiting: false, ..st }),
                Err(e) => Outcome::Fail(e),
            }
        } else {
            parse_tokens(rest, ParseState { words: st.words.push(t), ..st })
        }
    }
}

/// What an argument list asks for.
pub open spec fn spec_parse_args(toks: Seq<Seq<char>>) -> Outcome {
    parse_tokens(toks, init_state())
}

/// A normal invocation: the message words, the day shift, and whether the
/// message carries the date range.
#[derive(Debug)]
pub struct RunRequest {
    /// The free-text message words, in order.
    pub words: Vec<String>,
    /// How many days to shift the start of the run.
    pub shift: u8,
    /// Whether the message is prefixed with the start and end dates.
    pub with_date: bool,
}

/// What an argument list asks for.
#[derive(Debug)]
pub enum Invocation {
    /// Print the short usage and stop, successfully.
    Help,
    /// Print the long help and stop, successfully.
    HelpLong,
    /// Print the template.
    Run(RunRequest),
    /// The arguments were rejected.
    Fail(ParseError),
}

/// Parses the process arguments (the program name excluded).
pub fn parse_args(args: &Vec<String>) -> (r: Invocation)
    ensures
        ({
            let out = spec_parse_args(views_of(args@));
            match r {
                Invocation::Help => out == Outcome::Help,
                Invocation::HelpLong => out == Outcome::HelpLong,
                Invocation::Run(req) => out == (Outcome::Run {
                    words: views_of(req.words@),
                    shift: req.shift,
                    with_date: req.with_date,
                }),
                Invocation::Fail(e) => out == Outcome::Fail(e),
            }
        }),
{
    let flag_help = String::from_str("-h");
    let flag_help_long = String::from_str("--help");
    let flag_date = String::from_str("-d");
    let flag_shift = String::from_str("-s");
    let ghost toks = views_of(args@);
    let mut words: Vec<String> = Vec::new();
    let mut shift: u8 = 0;
    let mut with_date: bool = false;
    let mut waiting: bool = false;
    let mut i: usize = 0;
    proof {
        assert(toks.subrange(0, toks.len() as int) =~= toks);
        assert(views_of(words@) =~= Seq::<Seq<char>>::empty());
        assert(ParseState { words: views_of(words@), shift, with_date, waiting }
            == init_state());
    }
    while i < args.len()
        invariant
            i <= args.len(),
            toks == views_of(args@),
            toks.len() == args@.len(),
            spec_parse_args(toks) == parse_tokens(
                toks.subrange(i as int, toks.len() as int),
                ParseState { words: views_of(words@), shift, with_date, waiting },
            ),
            flag_help@ == "-h"@,
            flag_help_long@ == "--help"@,
            flag_date@ == "-d"@,
            flag_shift@ == "-s"@,
        decreases args.len() - i,
    {
        let ghost rest = toks.subrange(i as int, toks.len() as int);
        let ghost st = ParseState { words: views_of(words@), shift, with_date, waiting };
        proof {
            assert(rest[0] == toks[i as int]);
            assert(rest.subrange(1, rest.len() as int) =~= toks.subrange(
                i as int + 1,
                toks.len() as int,
            ));
        }
        let a = &args[i];
        if a.eq(&flag_help) {
            return Invocation::Help;
        } else if a.eq(&flag_help_long) {
            return Invocation::HelpLong;
        } else if a.eq(&flag_date) {
            with_date = true;
        } else if a.eq(&flag_shift) {
            waiting = true;
        } else if waiting {
            match parse_shift(a.as_str()) {
                Ok(v) => {
                    shift = v;
                    waiting = false;
                },
                Err(e) => {
                    return Invocation::Fail(e);
                },
            }
        } else {
            words.push(a.clone());
            proof {
                assert(views_of(words@) =~= st.words.push(toks[i as int]));
            }
        }
        i = i + 1;
    }
    proof {
        assert(toks.subrange(i as int, toks.len() as int) =~= Seq::<Seq<char>>::empty());
    }
    if waiting {
        Invocation::Fail(ParseError::MissingShiftValue)
    } else {
        Invocation::Run(RunRequest { words, shift, with_date })
    }
}

} // verus!

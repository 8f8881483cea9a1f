//! The message line: free-text words joined with spaces, optionally
//! prefixed with the start and end dates of the run.

use vstd::prelude::*;
use crate::date::{format_date, spec_format_date, Date, DateView};
use crate::views_of;

verus! {

/// The words joined with single spaces; empty when there are none.
pub open spec fn join_with_spaces(words: Seq<Seq<char>>) -> Seq<char>
    decreases words.len(),
{
    if words.len() == 0 {
        Seq::empty()
    } else if words.len() == 1 {
        words[0]
    } else {
        join_with_spaces(words.drop_last()) + seq![' '] + words.last()
    }
}

/// Joins the words with single spaces.
pub fn join_words(words: &Vec<String>) -> (s: String)
    ensures
        s@ == join_with_spaces(views_of(words@)),
{
    let ghost ws = views_of(words@);
    let mut s = String::new();
    let mut i: usize = 0;
    proof {
        assert(ws.subrange(0, 0) =~= Seq::<Seq<char>>::empty());
        reveal_strlit(" ");
        assert((" ")@ =~= seq![' ']);
    }
    while i < words.len()
        invariant
            i <= words.len(),
            ws == views_of(words@),
            ws.len() == words@.len(),
            (" ")@ == seq![' '],
            s@ == join_with_spaces(ws.subrange(0, i as int)),
        decreases words.len() - i,
    {
        if i > 0 {
            s.append(" ");
        }
        let w = &words[i];
        s.append(w.as_str());
        proof {
            let pre = ws.subrange(0, i as int);
            let cur = ws.subrange(0, i as int + 1);
            assert(cur.drop_last() =~= pre);
            assert(cur.last() == ws[i as int]);
            if i == 0 {
                assert(s@ =~= cur[0]);
            } else {
                assert(s@ =~= join_with_spaces(pre) + seq![' '] + cur.last());
            }
        }
        i = i + 1;
    }
    proof {
        assert(ws.subrange(0, words@.len() as int) =~= ws);
    }
    s
}

/// The date range `START to END`, each date formatted `YYYY-MM-DD`.
pub open spec fn spec_date_range(start: DateView, end: DateView) -> Seq<char> {
    spec_format_date(start) + " to "@ + spec_format_date(end)
}

/// The mathematical values of an optional date pair.
pub open spec fn dates_view(dates: Option<(Date, Date)>) -> Option<(DateView, DateView)> {
    match dates {
        Option::None => Option::None,
        Option::Some(p) => Option::Some((p.0@, p.1@)),
    }
}

/// The message line: the words joined with spaces; with a date pair, the
/// date range alone when there are no words, else the date range, a
/// ` -- ` separator, and the joined words.
pub open spec fn spec_message(words: Seq<Seq<char>>, dates: Option<(DateView, DateView)>) -> Seq<
    char,
> {
    match dates {
        Option::None => join_with_spaces(words),
        Option::Some(p) => {
            if words.len() == 0 {
                spec_date_range(p.0, p.1)
            } else {
                spec_date_range(p.0, p.1) + " -- "@ + join_with_spaces(words)
            }
        },
    }
}

/// Builds the message line.
pub fn build_message(words: &Vec<String>, dates: Option<(Date, Date)>) -> (m: String)
    requires
        dates matches Some(p) ==> p.0.wf() && p.1.wf(),
    ensures
        m@ == spec_message(views_of(words@), dates_view(dates)),
{
    match dates {
        None => join_words(words),
        Some((start, end)) => {
            let mut m = format_date(&start);
            m.append(" to ");
            let end_text = format_date(&end);
            m.append(end_text.as_str());
            if words.len() > 0 {
                m.append(" -- ");
                let joined = join_words(words);
                m.append(joined.as_str());
            }
            proof {
                assert(views_of(words@).len() == words@.len());
                assert(m@ =~= spec_message(views_of(words@), dates_view(dates)));
            }
            m
        },
    }
}

} // verus!

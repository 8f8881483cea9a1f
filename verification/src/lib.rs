//! Generator for a 30-day challenge "checkbox" template: a bracketed row of
//! weekday initials, one per day, with a space after each Sunday, preceded by
//! an optional message line that may carry the start and end dates.

pub mod checkbox;
pub mod date;
pub mod message;
pub mod num;
pub mod parse;
pub mod run;
pub mod usage;
pub mod weekday;

use vstd::prelude::*;

verus! {

/// The character sequences of a list of strings.
pub open spec fn views_of(xs: Seq<String>) -> Seq<Seq<char>> {
    xs.map_values(|s: String| s@)
}

} // verus!

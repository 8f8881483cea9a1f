//! The short usage line and the long help text.

use vstd::prelude::*;

verus! {

/// The short usage line.
pub open spec fn spec_usage() -> Seq<char> {
    "usage: thirtyday [-s DAYS] MESSAGE..."@
}

/// The short usage line.
pub fn usage() -> (s: String)
    ensures
        s@ == spec_usage(),
{
    String::from_str("usage: thirtyday [-s DAYS] MESSAGE...")
}

/// The long help text.
pub open spec fn spec_usage_long() -> Seq<char> {
    "thirtyday - generate a 'checkbox' for a 30-day challenge\n\nusage: thirtyday [-s DAYS] MESSAGE...\n\nOptions:\n    -s DAYS    Shift the start by DAYS days\n    -d         Prefix message with the start and end date\n\nThis will start from the current day and generate a checkbox for the next\n30 days, with the initial weekday letter, e.g.:\n\n    [WTFSS MTWTFSS MTWTFSS MTWTFSS MTWT]\n\nYou can copy this template into a plaintext file for keeping a log on your\nchallenge, replacing each day's letter with an '.' or 'x' to represent fail\nor success (or use whatever symbols you like). At the end of the month, you\ncan see something like...\n\n    [xxxxx xxxx..x xx.x..x xxxx.xx xxxx]\n\n...and add in any notes, such as 'sick in week 2'.\n"@
}

/// The long help text.
pub fn usage_long() -> (s: String)
    ensures
        s@ == spec_usage_long(),
{
    String::from_str(
        "thirtyday - generate a 'checkbox' for a 30-day challenge\n\nusage: thirtyday [-s DAYS] MESSAGE...\n\nOptions:\n    -s DAYS    Shift the start by DAYS days\n    -d         Prefix message with the start and end date\n\nThis will start from the current day and generate a checkbox for the next\n30 days, with the initial weekday letter, e.g.:\n\n    [WTFSS MTWTFSS MTWTFSS MTWTFSS MTWT]\n\nYou can copy this template into a plaintext file for keeping a log on your\nchallenge, replacing each day's letter with an '.' or 'x' to represent fail\nor success (or use whatever symbols you like). At the end of the month, you\ncan see something like...\n\n    [xxxxx xxxx..x xx.x..x xxxx.xx xxxx]\n\n...and add in any notes, such as 'sick in week 2'.\n",
    )
}

} // verus!

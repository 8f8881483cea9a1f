//! The 30-day checkbox template: one display letter per day, a space after
//! each Sunday except the last day, and the laws that the template obeys.

use vstd::prelude::*;
use crate::weekday::Weekday;

verus! {

/// The length of the challenge, in days.
pub const CHALLENGE_DAYS: usize = 30;

/// The weekday number of day `i` of a run whose first day falls on weekday
/// number `start` (Monday = 0 .. Sunday = 6).
pub open spec fn day_number(start: int, i: int) -> int {
    (start + i) % 7
}

/// The display letter of day `i` of a run starting on weekday number `start`.
pub open spec fn letter_at(start: int, i: int) -> char {
    Weekday::from_int(day_number(start, i)).spec_letter()
}

/// Day `i` closes a week: it falls on a Sunday and is not the last day of
/// the run (the template carries no trailing separator).
pub open spec fn closes_week(start: int, i: int) -> bool {
    day_number(start, i) == 6 && i != CHALLENGE_DAYS - 1
}

/// The characters the template holds for day `i`: the day's letter,
/// followed by a space when the day closes a week.
pub open spec fn day_chars(start: int, i: int) -> Seq<char> {
    if closes_week(start, i) {
        seq![letter_at(start, i), ' ']
    } else {
        seq![letter_at(start, i)]
    }
}

/// The template text for the first `n` days of a run starting on weekday
/// number `start`.
pub open spec fn template_seq(start: int, n: int) -> Seq<char>
    decreases n,
{
    if n <= 0 {
        Seq::empty()
    } else {
        template_seq(start, n - 1) + day_chars(start, n - 1)
    }
}

/// The template for the first `n` days with its separators removed.
pub open spec fn template_filter(start: int, n: int) -> Seq<char> {
    template_seq(start, n).filter(|c: char| c != ' ')
}

/// The number of week-closing separators among the first `i` days.
pub open spec fn seps_before(start: int, i: int) -> int
    decreases i,
{
    if i <= 0 {
        0
    } else {
        seps_before(start, i - 1) + (if closes_week(start, i - 1) {
            1int
        } else {
            0int
        })
    }
}

/// The position of day `i`'s letter within the template.
pub open spec fn letter_pos(start: int, i: int) -> int {
    i + seps_before(start, i)
}

/// The full 30-day template for a run starting on `start`.
pub fn template(start: Weekday) -> (s: String)
    ensures
        s@ == template_seq(start.as_int(), CHALLENGE_DAYS as int),
{
    let mut s = String::new();
    let mut cur = start;
    let mut i: usize = 0;
    proof {
        assert((start.as_int() + 0) % 7 == start.as_int());
    }
    while i < CHALLENGE_DAYS
        invariant
            i <= CHALLENGE_DAYS,
            cur.as_int() == day_number(start.as_int(), i as int),
            s@ == template_seq(start.as_int(), i as int),
        decreases CHALLENGE_DAYS - i,
    {
        let ghost pre = s@;
        cur.append_letter(&mut s);
        proof {
            cur.lemma_sunday_number();
            cur.lemma_from_int_as_int();
            assert(letter_at(start.as_int(), i as int) == cur.spec_letter());
        }
        if cur == Weekday::Sunday && i != CHALLENGE_DAYS - 1 {
            proof {
                reveal_strlit(" ");
                assert((" ")@ =~= seq![' ']);
            }
            s.append(" ");
        }
        proof {
            assert(s@ =~= template_seq(start.as_int(), i as int + 1));
            assert(((start.as_int() + i as int) % 7 + 1) % 7 == (start.as_int() + i as int + 1)
                % 7) by {
                vstd::arithmetic::div_mod::lemma_add_mod_noop(
                    start.as_int() + i as int,
                    1,
                    7,
                );
            };
        }
        cur = cur.succ();
        i = i + 1;
    }
    s
}

/// The template line wrapped in square brackets.
pub open spec fn spec_bracketed(start: int) -> Seq<char> {
    seq!['['] + template_seq(start, CHALLENGE_DAYS as int) + seq![']']
}

/// The full 30-day template wrapped in square brackets.
pub fn bracketed_template(start: Weekday) -> (s: String)
    ensures
        s@ == spec_bracketed(start.as_int()),
{
    let mut s = String::from_str("[");
    let body = template(start);
    s.append(body.as_str());
    s.append("]");
    proof {
        reveal_strlit("[");
        reveal_strlit("]");
        assert(s@ =~= spec_bracketed(start.as_int()));
    }
    s
}

/// The template for `n` days is the `n` letters plus one separator for
/// each week closed before day `n`.
pub proof fn lemma_template_len(start: int, n: int)
    requires
        0 <= n,
    ensures
        template_seq(start, n).len() == n + seps_before(start, n),
    decreases n,
{
    if n > 0 {
        lemma_template_len(start, n - 1);
    }
}

/// Separator counts are non-negative and grow by at most one per day.
pub proof fn lemma_seps_bounds(start: int, a: int, b: int)
    requires
        0 <= a <= b,
    ensures
        0 <= seps_before(start, a) <= seps_before(start, b) <= seps_before(start, a) + (b - a),
    decreases b - a,
{
    if a < b {
        lemma_seps_bounds(start, a, b - 1);
    } else {
        lemma_seps_nonneg(start, a);
    }
}

proof fn lemma_seps_nonneg(start: int, a: int)
    requires
        0 <= a,
    ensures
        0 <= seps_before(start, a) <= a,
    decreases a,
{
    if a > 0 {
        lemma_seps_nonneg(start, a - 1);
    }
}

/// A day's letter is never the separator character.
pub proof fn lemma_letter_not_space(start: int, i: int)
    ensures
        letter_at(start, i) != ' ',
{
}

/// Within any prefix of the template that holds day `i`, the day's letter
/// stands at `letter_pos(start, i)`, and a space follows it whenever the
/// day closes a week.
pub proof fn lemma_day_positions(start: int, n: int, i: int)
    requires
        0 <= i < n,
    ensures
        template_seq(start, n)[letter_pos(start, i)] == letter_at(start, i),
        closes_week(start, i) ==> template_seq(start, n)[letter_pos(start, i) + 1] == ' ',
    decreases n,
{
    lemma_template_len(start, n - 1);
    if i < n - 1 {
        lemma_day_positions(start, n - 1, i);
        lemma_seps_bounds(start, i + 1, n - 1);
        lemma_seps_nonneg(start, i);
        assert(letter_pos(start, i) + 1 < template_seq(start, n - 1).len() || !closes_week(
            start,
            i,
        )) by {
            assert(seps_before(start, i + 1) <= seps_before(start, n - 1));
        }
    } else {
        lemma_seps_nonneg(start, i);
        assert(letter_pos(start, i) == template_seq(start, n - 1).len());
    }
}

/// Law: in the full template, a space stands immediately after day `i`'s
/// letter exactly when day `i` falls on a Sunday and is not the last day.
pub proof fn lemma_separator_rule(start: int, i: int)
    requires
        0 <= i < CHALLENGE_DAYS as int,
    ensures
        closes_week(start, i) <==> (letter_pos(start, i) + 1 < template_seq(
            start,
            CHALLENGE_DAYS as int,
        ).len() && template_seq(start, CHALLENGE_DAYS as int)[letter_pos(start, i) + 1] == ' '),
{
    let n = CHALLENGE_DAYS as int;
    lemma_template_len(start, n);
    lemma_seps_nonneg(start, i);
    if closes_week(start, i) {
        lemma_day_positions(start, n, i);
        lemma_seps_bounds(start, i + 1, n);
        assert(letter_pos(start, i) + 1 < n + seps_before(start, n));
    } else {
        if i == n - 1 {
            lemma_seps_bounds(start, i, n);
            assert(seps_before(start, n) == seps_before(start, n - 1));
            assert(letter_pos(start, i) + 1 == template_seq(start, n).len());
        } else {
            lemma_day_positions(start, n, i + 1);
            assert(seps_before(start, i + 1) == seps_before(start, i));
            assert(letter_pos(start, i + 1) == letter_pos(start, i) + 1);
            lemma_letter_not_space(start, i + 1);
            assert(template_seq(start, n)[letter_pos(start, i) + 1] != ' ');
        }
    }
}

/// Law: a 30-day run that does not start on a Sunday closes exactly four
/// weeks, so its template holds exactly four separators.
pub proof fn lemma_separator_count(start: int)
    requires
        0 <= start < 7,
        start != 6,
    ensures
        seps_before(start, CHALLENGE_DAYS as int) == 4,
        template_seq(start, CHALLENGE_DAYS as int).len() == CHALLENGE_DAYS as int + 4,
{
    lemma_template_len(start, CHALLENGE_DAYS as int);
    reveal_with_fuel(seps_before, 32);
    if start == 0 {
        assert(seps_before(0, 30) == 4);
    } else if start == 1 {
        assert(seps_before(1, 30) == 4);
    } else if start == 2 {
        assert(seps_before(2, 30) == 4);
    } else if start == 3 {
        assert(seps_before(3, 30) == 4);
    } else if start == 4 {
        assert(seps_before(4, 30) == 4);
    } else {
        assert(seps_before(5, 30) == 4);
    }
}

/// A 30-day run that starts on a Sunday closes five weeks: its first day
/// already ends one.
pub proof fn lemma_separator_count_sunday_start()
    ensures
        seps_before(6, CHALLENGE_DAYS as int) == 5,
{
    reveal_with_fuel(seps_before, 32);
    assert(seps_before(6, 30) == 5);
}

/// With the separators removed, the template for `n` days is exactly the
/// `n` days' letters in order.
pub proof fn lemma_template_filter(start: int, n: int)
    requires
        0 <= n,
    ensures
        template_filter(start, n) =~= Seq::new(n as nat, |i: int| letter_at(start, i)),
    decreases n,
{
    let pred = |c: char| c != ' ';
    reveal_with_fuel(Seq::<_>::filter, 3);
    if n > 0 {
        lemma_template_filter(start, n - 1);
        Seq::filter_distributes_over_add(
            template_seq(start, n - 1),
            day_chars(start, n - 1),
            pred,
        );
        let d = day_chars(start, n - 1);
        lemma_letter_not_space(start, n - 1);
        assert(d.filter(pred) =~= seq![letter_at(start, n - 1)]) by {
            if closes_week(start, n - 1) {
                assert(d.last() == ' ');
                assert(d.drop_last() =~= seq![letter_at(start, n - 1)]);
                assert(d.filter(pred) == d.drop_last().filter(pred));
            }
            let u = seq![letter_at(start, n - 1)];
            assert(u.drop_last() =~= Seq::<char>::empty());
            assert(Seq::<char>::empty().filter(pred) =~= Seq::<char>::empty());
            assert(u.filter(pred) =~= u);
        }
    }
}

/// Law: the template's letter count, separators excluded, is exactly the
/// number of challenge days, whatever the starting weekday.
pub proof fn lemma_core_length(start: int)
    ensures
        template_filter(start, CHALLENGE_DAYS as int).len() == CHALLENGE_DAYS as int,
{
    lemma_template_filter(start, CHALLENGE_DAYS as int);
}

/// Law: ignoring the spaces, the template of a run shifted `s` days from
/// weekday number `w0` spells the display letters of 30 consecutive
/// calendar days, the first of them `s` days after `w0`.
pub proof fn lemma_template_letters(w0: int, s: int)
    requires
        0 <= w0 < 7,
        0 <= s <= 255,
    ensures
        template_filter(day_number(w0, s), CHALLENGE_DAYS as int).len() == CHALLENGE_DAYS as int,
        forall|i: int|
            0 <= i < CHALLENGE_DAYS as int ==> template_filter(
                day_number(w0, s),
                CHALLENGE_DAYS as int,
            )[i] == letter_at(w0, s + i),
{
    let start = day_number(w0, s);
    lemma_template_filter(start, CHALLENGE_DAYS as int);
    assert forall|i: int| 0 <= i < CHALLENGE_DAYS as int implies template_filter(
        start,
        CHALLENGE_DAYS as int,
    )[i] == letter_at(w0, s + i) by {
        assert((start + i) % 7 == (w0 + s + i) % 7) by {
            vstd::arithmetic::div_mod::lemma_mod_twice(w0 + s, 7);
            vstd::arithmetic::div_mod::lemma_small_mod(
                (i % 7) as nat,
                7,
            );
            vstd::arithmetic::div_mod::lemma_add_mod_noop(w0 + s, i, 7);
            vstd::arithmetic::div_mod::lemma_add_mod_noop((w0 + s) % 7, i, 7);
        };
    }
}

} // verus!

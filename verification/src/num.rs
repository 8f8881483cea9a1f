//! Decimal digits: what a digit string is worth, and how a number is
//! rendered as decimal text, optionally zero-padded.

use vstd::prelude::*;

verus! {

/// Is `c` a decimal digit `'0'`..`'9'`?
pub open spec fn is_digit(c: char) -> bool {
    48 <= c as u32 && c as u32 <= 57
}

/// The numeric value of a digit character.
pub open spec fn digit_val(c: char) -> int {
    c as u32 - 48
}

/// The digit character with value `d` (0..=9).
pub open spec fn digit_char(d: int) -> char {
    if d == 0 {
        '0'
    } else if d == 1 {
        '1'
    } else if d == 2 {
        '2'
    } else if d == 3 {
        '3'
    } else if d == 4 {
        '4'
    } else if d == 5 {
        '5'
    } else if d == 6 {
        '6'
    } else if d == 7 {
        '7'
    } else if d == 8 {
        '8'
    } else {
        '9'
    }
}

/// Every character of `s` is a decimal digit.
pub open spec fn all_digits(s: Seq<char>) -> bool {
    forall|i: int| 0 <= i < s.len() ==> is_digit(s[i])
}

/// The value of a digit string read in base ten, most significant digit
/// first; the empty string is worth 0.
pub open spec fn digits_val(s: Seq<char>) -> int
    decreases s.len(),
{
    if s.len() == 0 {
        0
    } else {
        digits_val(s.drop_last()) * 10 + digit_val(s.last())
    }
}

/// The decimal digits of `n`, most significant first, without leading
/// zeros (`0` itself is the single digit `0`).
pub open spec fn dec_seq(n: nat) -> Seq<char>
    decreases n,
{
    if n < 10 {
        seq![digit_char(n as int)]
    } else {
        dec_seq(n / 10).push(digit_char((n % 10) as int))
    }
}

/// `dec_seq(n)`, zero-padded on the left to at least `w` characters.
pub open spec fn padded_dec_seq(n: nat, w: nat) -> Seq<char> {
    if dec_seq(n).len() >= w {
        dec_seq(n)
    } else {
        Seq::new((w - dec_seq(n).len()) as nat, |i: int| '0') + dec_seq(n)
    }
}

/// How many digits small numbers render to.
pub proof fn lemma_dec_seq_len(n: nat)
    ensures
        n < 10 ==> dec_seq(n).len() == 1,
        10 <= n < 100 ==> dec_seq(n).len() == 2,
        100 <= n < 1000 ==> dec_seq(n).len() == 3,
        1000 <= n < 10000 ==> dec_seq(n).len() == 4,
        10000 <= n ==> dec_seq(n).len() >= 5,
    decreases n,
{
    if n >= 10 {
        lemma_dec_seq_len(n / 10);
    }
}

/// Appends the digit character of `d` to `s`.
pub fn append_digit(s: &mut String, d: u32)
    requires
        d < 10,
    ensures
        final(s)@ == old(s)@ + seq![digit_char(d as int)],
{
    if d == 0 {
        proof {
            reveal_strlit("0");
            assert(("0")@ =~= seq![digit_char(0)]);
        }
        s.append("0");
    } else if d == 1 {
        proof {
            reveal_strlit("1");
            assert(("1")@ =~= seq![digit_char(1)]);
        }
        s.append("1");
    } else if d == 2 {
        proof {
            reveal_strlit("2");
            assert(("2")@ =~= seq![digit_char(2)]);
        }
        s.append("2");
    } else if d == 3 {
        proof {
            reveal_strlit("3");
            assert(("3")@ =~= seq![digit_char(3)]);
        }
        s.append("3");
    } else if d == 4 {
        proof {
            reveal_strlit("4");
            assert(("4")@ =~= seq![digit_char(4)]);
        }
        s.append("4");
    } else if d == 5 {
        proof {
            reveal_strlit("5");
            assert(("5")@ =~= seq![digit_char(5)]);
        }
        s.append("5");
    } else if d == 6 {
        proof {
            reveal_strlit("6");
            assert(("6")@ =~= seq![digit_char(6)]);
        }
        s.append("6");
    } else if d == 7 {
        proof {
            reveal_strlit("7");
            assert(("7")@ =~= seq![digit_char(7)]);
        }
        s.append("7");
    } else if d == 8 {
        proof {
            reveal_strlit("8");
            assert(("8")@ =~= seq![digit_char(8)]);
        }
        s.append("8");
    } else {
        proof {
            reveal_strlit("9");
            assert(("9")@ =~= seq![digit_char(9)]);
        }
        s.append("9");
    }
}

/// Appends the decimal rendering of `n` to `s`.
pub fn append_dec(s: &mut String, n: u32)
    ensures
        final(s)@ == old(s)@ + dec_seq(n as nat),
    decreases n,
{
    if n < 10 {
        append_digit(s, n);
    } else {
        append_dec(s, n / 10);
        append_digit(s, n % 10);
        proof {
            assert(dec_seq(n as nat) =~= dec_seq((n as nat) / 10) + seq![
                digit_char(((n as nat) % 10) as int),
            ]);
            assert((n / 10) as nat == (n as nat) / 10);
            assert((n % 10) as int == ((n as nat) % 10) as int);
            assert(old(s)@ + dec_seq((n as nat) / 10) + seq![digit_char(((n as nat) % 10) as int)]
                =~= old(s)@ + dec_seq(n as nat));
        }
    }
}

/// Appends the decimal rendering of `n`, zero-padded to at least two
/// characters.
pub fn append_dec_pad2(s: &mut String, n: u32)
    ensures
        final(s)@ == old(s)@ + padded_dec_seq(n as nat, 2),
{
    proof {
        lemma_dec_seq_len(n as nat);
    }
    if n < 10 {
        proof {
            reveal_strlit("0");
        }
        s.append("0");
        proof {
            assert(("0")@ =~= Seq::new(1, |i: int| '0'));
        }
    }
    append_dec(s, n);
    proof {
        assert(s@ =~= old(s)@ + padded_dec_seq(n as nat, 2));
    }
}

/// Appends the decimal rendering of `n`, zero-padded to at least four
/// characters.
pub fn append_dec_pad4(s: &mut String, n: u32)
    ensures
        final(s)@ == old(s)@ + padded_dec_seq(n as nat, 4),
{
    proof {
        lemma_dec_seq_len(n as nat);
    }
    if n < 10 {
        proof {
            reveal_strlit("000");
        }
        s.append("000");
        proof {
            assert(("000")@ =~= Seq::new(3, |i: int| '0'));
        }
    } else if n < 100 {
        proof {
            reveal_strlit("00");
        }
        s.append("00");
        proof {
            assert(("00")@ =~= Seq::new(2, |i: int| '0'));
        }
    } else if n < 1000 {
        proof {
            reveal_strlit("0");
        }
        s.append("0");
        proof {
            assert(("0")@ =~= Seq::new(1, |i: int| '0'));
        }
    }
    append_dec(s, n);
    proof {
        assert(s@ =~= old(s)@ + padded_dec_seq(n as nat, 4));
    }
}

} // verus!

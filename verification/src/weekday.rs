//! Days of the week, their cyclic successor, and their one-letter display
//! form (Tuesday/Thursday share `T`, Saturday/Sunday share `S`: a fixed,
//! lossy display convention of the checkbox template).

use vstd::prelude::*;

verus! {

/// A day of the week. The numbering (see [`Weekday::as_int`]) starts at
/// Monday = 0 and ends at Sunday = 6.
#[derive(Clone, Copy, PartialEq, Eq, Structural, Debug)]
pub enum Weekday {
    Monday,
    Tuesday,
    Wednesday,
    Thursday,
    Friday,
    Saturday,
    Sunday,
}

impl Weekday {
    /// Day number: Monday = 0 .. Sunday = 6.
    pub open spec fn as_int(self) -> int {
        match self {
            Weekday::Monday => 0,
            Weekday::Tuesday => 1,
            Weekday::Wednesday => 2,
            Weekday::Thursday => 3,
            Weekday::Friday => 4,
            Weekday::Saturday => 5,
            Weekday::Sunday => 6,
        }
    }

    /// The day with the given number; days are numbered Monday = 0 .. Sunday = 6.
    pub open spec fn from_int(i: int) -> Weekday {
        if i == 0 {
            Weekday::Monday
        } else if i == 1 {
            Weekday::Tuesday
        } else if i == 2 {
            Weekday::Wednesday
        } else if i == 3 {
            Weekday::Thursday
        } else if i == 4 {
            Weekday::Friday
        } else if i == 5 {
            Weekday::Saturday
        } else {
            Weekday::Sunday
        }
    }

    /// The display letter of each day.
    pub open spec fn spec_letter(self) -> char {
        match self {
            Weekday::Monday => 'M',
            Weekday::Tuesday => 'T',
            Weekday::Wednesday => 'W',
            Weekday::Thursday => 'T',
            Weekday::Friday => 'F',
            Weekday::Saturday => 'S',
            Weekday::Sunday => 'S',
        }
    }

    /// `from_int` inverts `as_int`.
    pub proof fn lemma_from_int_as_int(self)
        ensures
            Weekday::from_int(self.as_int()) == self,
    {
    }

    /// The next day of the week, wrapping Sunday around to Monday.
    pub fn succ(self) -> (r: Self)
        ensures
            r.as_int() == (self.as_int() + 1) % 7,
    {
        match self {
            Weekday::Monday => Weekday::Tuesday,
            Weekday::Tuesday => Weekday::Wednesday,
            Weekday::Wednesday => Weekday::Thursday,
            Weekday::Thursday => Weekday::Friday,
            Weekday::Friday => Weekday::Saturday,
            Weekday::Saturday => Weekday::Sunday,
            Weekday::Sunday => Weekday::Monday,
        }
    }

    /// The display letter of this day.
    pub fn letter(self) -> (r: char)
        ensures
            r == self.spec_letter(),
    {
        match self {
            Weekday::Monday => 'M',
            Weekday::Tuesday => 'T',
            Weekday::Wednesday => 'W',
            Weekday::Thursday => 'T',
            Weekday::Friday => 'F',
            Weekday::Saturday => 'S',
            Weekday::Sunday => 'S',
        }
    }

    /// Appends this day's display letter to `s`.
    pub fn append_letter(self, s: &mut String)
        ensures
            final(s)@ == old(s)@ + seq![self.spec_letter()],
    {
        match self {
            Weekday::Monday => {
                proof {
                    reveal_strlit("M");
                    assert(("M")@ =~= seq!['M']);
                }
                s.append("M");
            },
            Weekday::Tuesday | Weekday::Thursday => {
                proof {
                    reveal_strlit("T");
                    assert(("T")@ =~= seq!['T']);
                }
                s.append("T");
            },
            Weekday::Wednesday => {
                proof {
                    reveal_strlit("W");
                    assert(("W")@ =~= seq!['W']);
                }
                s.append("W");
            },
            Weekday::Friday => {
                proof {
                    reveal_strlit("F");
                    assert(("F")@ =~= seq!['F']);
                }
                s.append("F");
            },
            Weekday::Saturday | Weekday::Sunday => {
                proof {
                    reveal_strlit("S");
                    assert(("S")@ =~= seq!['S']);
                }
                s.append("S");
            },
        }
    }

    /// A day's number lies between 0 and 6.
    pub proof fn lemma_as_int_range(self)
        ensures
            0 <= self.as_int() < 7,
    {
        match self {
            Weekday::Monday => assert(self.as_int() == 0),
            Weekday::Tuesday => assert(self.as_int() == 1),
            Weekday::Wednesday => assert(self.as_int() == 2),
            Weekday::Thursday => assert(self.as_int() == 3),
            Weekday::Friday => assert(self.as_int() == 4),
            Weekday::Saturday => assert(self.as_int() == 5),
            Weekday::Sunday => assert(self.as_int() == 6),
        }
    }

    /// A day's number is 6 exactly when the day is Sunday.
    pub proof fn lemma_sunday_number(self)
        ensures
            (self.as_int() == 6) <==> (self == Weekday::Sunday),
    {
    }

    /// The day `shift` days after this one, cyclically.
    pub fn shifted(self, shift: u8) -> (r: Self)
        ensures
            r.as_int() == (self.as_int() + shift as int) % 7,
    {
        let mut cur = self;
        let mut i: u8 = 0;
        proof {
            assert((self.as_int() + 0) % 7 == self.as_int());
        }
        while i < shift
            invariant
                i <= shift,
                cur.as_int() == (self.as_int() + i as int) % 7,
            decreases shift - i,
        {
            cur = cur.succ();
            proof {
                assert(((self.as_int() + i as int) % 7 + 1) % 7 == (self.as_int() + i as int + 1)
                    % 7) by {
                    vstd::arithmetic::div_mod::lemma_add_mod_noop(
                        self.as_int() + i as int,
                        1,
                        7,
                    );
                };
            }
            i = i + 1;
        }
        cur
    }
}

} // verus!

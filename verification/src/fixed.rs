//! Two-decimal fixed-point numbers and their decimal rendering.
//!
//! Prices and day-change percentages are carried as a sign plus a count of
//! hundredths, which is exactly the precision the report renders.

use vstd::prelude::*;
use vstd::string::*;

verus! {

/// A signed number with two decimal places: `negative` is the sign and
/// `hundredths` the magnitude in hundredths.  A value such as `123.40` is
/// `Fixed2 { negative: false, hundredths: 12340 }`.
#[derive(Clone, Copy, PartialEq, Eq, Structural, Debug)]
pub struct Fixed2 {
    pub negative: bool,
    pub hundredths: u64,
}

/// The decimal digit character for `d` in `0..10`.
pub open spec fn digit_char(d: int) -> char {
    if d == 0 {
        '0'
    } else if d == 1 {
        '1'
    } else if d == 2 {
        '2'
    } else if d == 3 {
        '3'
    } else if d == 4 {
        '4'
    } else if d == 5 {
        '5'
    } else if d == 6 {
        '6'
    } else if d == 7 {
        '7'
    } else if d == 8 {
        '8'
    } else {
        '9'
    }
}

/// The decimal digit string of a non-negative integer, without padding:
/// `0 -> "0"`, `123 -> "123"`.
pub open spec fn dec_digits(n: int) -> Seq<char>
    decreases n,
{
    if n < 10 {
        seq![digit_char(n)]
    } else {
        dec_digits(n / 10).push(digit_char(n % 10))
    }
}

/// Two decimal digits with a leading zero: `7 -> "07"`, `40 -> "40"`.
pub open spec fn two_digits(n: int) -> Seq<char> {
    seq![digit_char(n / 10), digit_char(n % 10)]
}

/// The magnitude of `hundredths` rendered with exactly two decimal places,
/// e.g. `12340 -> "123.40"`.
pub open spec fn spec_unsigned_fixed2(hundredths: int) -> Seq<char> {
    dec_digits(hundredths / 100) + seq!['.'] + two_digits(hundredths % 100)
}

/// `f` rendered with a sign only when negative: `123.40`, `-1.24`.
pub open spec fn spec_plain_fixed2(f: Fixed2) -> Seq<char> {
    if f.negative {
        seq!['-'] + spec_unsigned_fixed2(f.hundredths as int)
    } else {
        spec_unsigned_fixed2(f.hundredths as int)
    }
}

/// `f` rendered with a forced sign: `+2.00`, `-1.24`.
pub open spec fn spec_signed_fixed2(f: Fixed2) -> Seq<char> {
    if f.negative {
        seq!['-'] + spec_unsigned_fixed2(f.hundredths as int)
    } else {
        seq!['+'] + spec_unsigned_fixed2(f.hundredths as int)
    }
}

/// The single-character string for digit `d`.
fn digit_str(d: u64) -> (r: &'static str)
    requires
        d < 10,
    ensures
        r@ == seq![digit_char(d as int)],
{
    if d == 0 {
        proof {
            reveal_strlit("0");
            assert("0"@ =~= seq![digit_char(0)]);
        }
        "0"
    } else if d == 1 {
        proof {
            reveal_strlit("1");
            assert("1"@ =~= seq![digit_char(1)]);
        }
        "1"
    } else if d == 2 {
        proof {
            reveal_strlit("2");
            assert("2"@ =~= seq![digit_char(2)]);
        }
        "2"
    } else if d == 3 {
        proof {
            reveal_strlit("3");
            assert("3"@ =~= seq![digit_char(3)]);
        }
        "3"
    } else if d == 4 {
        proof {
            reveal_strlit("4");
            assert("4"@ =~= seq![digit_char(4)]);
        }
        "4"
    } else if d == 5 {
        proof {
            reveal_strlit("5");
            assert("5"@ =~= seq![digit_char(5)]);
        }
        "5"
    } else if d == 6 {
        proof {
            reveal_strlit("6");
            assert("6"@ =~= seq![digit_char(6)]);
        }
        "6"
    } else if d == 7 {
        proof {
            reveal_strlit("7");
            assert("7"@ =~= seq![digit_char(7)]);
        }
        "7"
    } else if d == 8 {
        proof {
            reveal_strlit("8");
            assert("8"@ =~= seq![digit_char(8)]);
        }
        "8"
    } else {
        proof {
            reveal_strlit("9");
            assert("9"@ =~= seq![digit_char(9)]);
        }
        "9"
    }
}

/// Appends the decimal digits of `n` to `s`.
fn push_u64(s: &mut String, n: u64)
    ensures
        final(s)@ == old(s)@ + dec_digits(n as int),
    decreases n,
{
    if n >= 10 {
        push_u64(s, n / 10);
        s.append(digit_str(n % 10));
        proof {
            assert(s@ =~= old(s)@ + dec_digits(n as int));
        }
    } else {
        s.append(digit_str(n));
    }
}

impl Fixed2 {
    /// Builds the value from its sign and magnitude in hundredths.
    pub fn new(negative: bool, hundredths: u64) -> (r: Fixed2)
        ensures
            r.negative == negative,
            r.hundredths == hundredths,
    {
        Fixed2 { negative, hundredths }
    }

    /// Renders the value with two decimal places and a sign only when
    /// negative, as `"123.40"` or `"-1.24"`.
    pub fn render_plain(&self) -> (r: String)
        ensures
            r@ == spec_plain_fixed2(*self),
    {
        let mut s = String::new();
        if self.negative {
            proof {
                reveal_strlit("-");
                assert("-"@ =~= seq!['-']);
            }
            s.append("-");
        }
        self.push_unsigned(&mut s);
        proof {
            assert(s@ =~= spec_plain_fixed2(*self));
        }
        s
    }

    /// Renders the value with two decimal places and a forced sign, as
    /// `"+2.00"` or `"-1.24"`.
    pub fn render_signed(&self) -> (r: String)
        ensures
            r@ == spec_signed_fixed2(*self),
    {
        let mut s = String::new();
        if self.negative {
            proof {
                reveal_strlit("-");
                assert("-"@ =~= seq!['-']);
            }
            s.append("-");
        } else {
            proof {
                reveal_strlit("+");
                assert("+"@ =~= seq!['+']);
            }
            s.append("+");
        }
        self.push_unsigned(&mut s);
        proof {
            assert(s@ =~= spec_signed_fixed2(*self));
        }
        s
    }

    /// Appends the unsigned rendering `whole.fraction` to `s`.
    fn push_unsigned(&self, s: &mut String)
        ensures
            final(s)@ == old(s)@ + spec_unsigned_fixed2(self.hundredths as int),
    {
        push_u64(s, self.hundredths / 100);
        proof {
            reveal_strlit(".");
            assert("."@ =~= seq!['.']);
        }
        s.append(".");
        let frac: u64 = self.hundredths % 100;
        s.append(digit_str(frac / 10));
        s.append(digit_str(frac % 10));
        proof {
            assert(s@ =~= old(s)@ + spec_unsigned_fixed2(self.hundredths as int));
        }
    }
}

} // verus!

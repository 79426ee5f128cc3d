//! Angles in whole millionths of a degree, and their decimal text.

use vstd::prelude::*;

verus! {

/// Millionths in one degree.
pub const MICROS_PER_DEGREE: u64 = 1_000_000;

/// Weight of the first fractional digit, in millionths of a degree.
pub const FIRST_FRACTION_UNIT: u64 = 100_000;

/// An angle, held as a whole number of millionths of a degree.
#[derive(Clone, Copy, Debug, PartialEq, Eq, Structural)]
pub struct Degrees {
    pub micro: i64,
}

/// The character that writes the digit `d`.
pub open spec fn digit_char(d: int) -> char
    recommends
        0 <= d < 10,
{
    if d == 0 {
        '0'
    } else if d == 1 {
        '1'
    } else if d == 2 {
        '2'
    } else if d == 3 {
        '3'
    } else if d == 4 {
        '4'
    } else if d == 5 {
        '5'
    } else if d == 6 {
        '6'
    } else if d == 7 {
        '7'
    } else if d == 8 {
        '8'
    } else {
        '9'
    }
}

/// The decimal digits of `n`, most significant first, without leading zeros.
pub open spec fn whole_digits(n: nat) -> Seq<char>
    decreases n,
{
    if n < 10 {
        seq![digit_char(n as int)]
    } else {
        whole_digits(n / 10).push(digit_char((n % 10) as int))
    }
}

/// The digits after the decimal point of a remainder `rest`, whose first digit
/// weighs `unit`; the digits stop where nothing but zeros would follow.
pub open spec fn fraction_digits(rest: nat, unit: nat) -> Seq<char>
    recommends
        rest < 10 * unit,
    decreases unit,
{
    if rest == 0 || unit == 0 {
        Seq::empty()
    } else {
        seq![digit_char((rest / unit) as int)] + fraction_digits(rest % unit, unit / 10)
    }
}

/// The decimal numeral of an angle of `micro` millionths of a degree: a minus
/// sign for a negative angle, the whole degrees, and, unless the angle is a
/// whole number of degrees, a point and up to six decimals.
pub open spec fn decimal_text(micro: int) -> Seq<char> {
    let magnitude = vstd::math::abs(micro);
    let whole = magnitude / (MICROS_PER_DEGREE as nat);
    let rest = magnitude % (MICROS_PER_DEGREE as nat);
    let sign = if micro < 0 {
        seq!['-']
    } else {
        Seq::empty()
    };
    let decimals = if rest == 0 {
        Seq::empty()
    } else {
        seq!['.'] + fraction_digits(rest, FIRST_FRACTION_UNIT as nat)
    };
    sign + whole_digits(whole) + decimals
}

/// The one-character text of the digit `d`.
fn digit_text(d: u64) -> (text: &'static str)
    requires
        d < 10,
    ensures
        text@ == seq![digit_char(d as int)],
{
    proof {
        reveal_strlit("0");
        reveal_strlit("1");
        reveal_strlit("2");
        reveal_strlit("3");
        reveal_strlit("4");
        reveal_strlit("5");
        reveal_strlit("6");
        reveal_strlit("7");
        reveal_strlit("8");
        reveal_strlit("9");
    }
    let text = if d == 0 {
        "0"
    } else if d == 1 {
        "1"
    } else if d == 2 {
        "2"
    } else if d == 3 {
        "3"
    } else if d == 4 {
        "4"
    } else if d == 5 {
        "5"
    } else if d == 6 {
        "6"
    } else if d == 7 {
        "7"
    } else if d == 8 {
        "8"
    } else {
        "9"
    };
    assert(text@ =~= seq![digit_char(d as int)]);
    text
}

/// Appends the digits of `n` to `text`.
fn push_whole(text: &mut String, n: u64)
    ensures
        final(text)@ == old(text)@ + whole_digits(n as nat),
    decreases n,
{
    if n >= 10 {
        push_whole(text, n / 10);
    }
    text.append(digit_text(n % 10));
    assert(text@ =~= old(text)@ + whole_digits(n as nat));
}

/// Whether `unit` is a power of ten.
spec fn is_decimal_unit(unit: nat) -> bool
    decreases unit,
{
    unit == 1 || (unit >= 10 && unit % 10 == 0 && is_decimal_unit(unit / 10))
}

/// Appends the decimals of `rest` to `text`, the first of them weighing `unit`.
fn push_fraction(text: &mut String, rest: u64, unit: u64)
    requires
        rest < 10 * unit,
        is_decimal_unit(unit as nat),
    ensures
        final(text)@ == old(text)@ + fraction_digits(rest as nat, unit as nat),
    decreases unit,
{
    if rest != 0 {
        assert(rest / unit < 10) by (nonlinear_arith)
            requires
                rest < 10 * unit,
                unit > 0,
        ;
        text.append(digit_text(rest / unit));
        if unit >= 10 {
            push_fraction(text, rest % unit, unit / 10);
        } else {
            assert(unit == 1);
            assert(fraction_digits((rest % unit) as nat, (unit / 10) as nat) =~= Seq::empty());
        }
        assert(text@ =~= old(text)@ + (seq![digit_char((rest / unit) as int)] + fraction_digits(
            (rest % unit) as nat,
            (unit / 10) as nat,
        )));
    }
}

impl Degrees {
    /// The angle of `micro` millionths of a degree.
    pub fn from_micro(micro: i64) -> (angle: Degrees)
        ensures
            angle.micro == micro,
    {
        Degrees { micro }
    }

    /// The angle written as a decimal numeral of degrees.
    pub fn to_text(&self) -> (text: String)
        ensures
            text@ == decimal_text(self.micro as int),
    {
        let magnitude: u64 = if self.micro < 0 {
            (-(self.micro + 1)) as u64 + 1
        } else {
            self.micro as u64
        };
        let whole: u64 = magnitude / MICROS_PER_DEGREE;
        let rest: u64 = magnitude % MICROS_PER_DEGREE;
        let mut text = String::new();
        if self.micro < 0 {
            proof {
                reveal_strlit("-");
            }
            text.append("-");
        }
        push_whole(&mut text, whole);
        if rest != 0 {
            proof {
                reveal_strlit(".");
            }
            text.append(".");
            assert(is_decimal_unit(FIRST_FRACTION_UNIT as nat)) by {
                reveal_with_fuel(is_decimal_unit, 7);
            }
            push_fraction(&mut text, rest, FIRST_FRACTION_UNIT);
        }
        assert(text@ =~= decimal_text(self.micro as int));
        text
    }
}

} // verus!

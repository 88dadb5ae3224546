//! Numbers written out in decimal.

use vstd::prelude::*;
use vstd::string::*;
use crate::arith::lemma_quotient_below;
use crate::num::{magnitude, Component, NumType, STEPS, UNIT};

verus! {

/// The character that stands for the digit `d`.
pub open spec fn digit_char(d: int) -> char {
    if d == 0 {
        '0'
    } else if d == 1 {
        '1'
    } else if d == 2 {
        '2'
    } else if d == 3 {
        '3'
    } else if d == 4 {
        '4'
    } else if d == 5 {
        '5'
    } else if d == 6 {
        '6'
    } else if d == 7 {
        '7'
    } else if d == 8 {
        '8'
    } else {
        '9'
    }
}

/// The decimal digits of `n`, the most significant first and none of them a
/// leading zero; zero itself is written `0`.
pub open spec fn decimal_digits(n: nat) -> Seq<char>
    decreases n,
{
    if n < 10 {
        seq![digit_char(n as int)]
    } else {
        decimal_digits(n / 10).push(digit_char((n % 10) as int))
    }
}

/// Whether `n` is one, ten, a hundred and so on.
pub open spec fn is_power_of_ten(n: nat) -> bool
    decreases n,
{
    n == 1 || (n >= 10 && n % 10 == 0 && is_power_of_ten(n / 10))
}

/// The digits of the fraction `part / scale` behind the decimal point, as far
/// as the last one that is not zero. `scale` is a power of ten.
pub open spec fn fraction_digits(part: nat, scale: nat) -> Seq<char>
    decreases scale,
{
    if part == 0 || scale < 10 {
        Seq::empty()
    } else {
        seq![digit_char((part / (scale / 10)) as int)] + fraction_digits(
            part % (scale / 10),
            scale / 10,
        )
    }
}

/// A number written in decimal: a minus sign if it is negative, its whole
/// part, and behind a point the digits of its fraction `part / scale`, if it
/// has one.
pub open spec fn decimal_of(negative: bool, whole: nat, part: nat, scale: nat) -> Seq<char> {
    let body = if part == 0 {
        decimal_digits(whole)
    } else {
        decimal_digits(whole) + seq!['.'] + fraction_digits(part, scale)
    };
    if negative {
        seq!['-'] + body
    } else {
        body
    }
}

/// The component that is `n` trillionths, written in decimal.
pub open spec fn component_text(n: int) -> Seq<char> {
    let size = magnitude(n);
    decimal_of(n < 0, (size / (UNIT as int)) as nat, (size % (UNIT as int)) as nat, UNIT as nat)
}

/// A million million million million million million: four times `STEPS`.
#[verifier::inline]
pub const FOUR_STEPS: u128 = 1_000_000_000_000_000_000_000_000_000_000_000_000;

/// The number that is `n` steps, written in decimal: a step is four parts in
/// `FOUR_STEPS`.
pub open spec fn decimal_text(n: int) -> Seq<char> {
    let size = magnitude(n);
    decimal_of(
        n < 0,
        (size / (STEPS as int)) as nat,
        (4 * (size % (STEPS as int))) as nat,
        FOUR_STEPS as nat,
    )
}

/// The digit `d` as text.
fn digit_str(d: u128) -> (s: &'static str)
    requires
        d < 10,
    ensures
        s@ == seq![digit_char(d as int)],
{
    proof {
        reveal_strlit("0");
        reveal_strlit("1");
        reveal_strlit("2");
        reveal_strlit("3");
        reveal_strlit("4");
        reveal_strlit("5");
        reveal_strlit("6");
        reveal_strlit("7");
        reveal_strlit("8");
        reveal_strlit("9");
    }
    let s = if d == 0 {
        "0"
    } else if d == 1 {
        "1"
    } else if d == 2 {
        "2"
    } else if d == 3 {
        "3"
    } else if d == 4 {
        "4"
    } else if d == 5 {
        "5"
    } else if d == 6 {
        "6"
    } else if d == 7 {
        "7"
    } else if d == 8 {
        "8"
    } else {
        "9"
    };
    assert(s@ =~= seq![digit_char(d as int)]);
    s
}

/// Appends the decimal digits of `n` to `out`.
pub fn push_decimal(out: &mut String, n: u128)
    ensures
        final(out)@ == old(out)@ + decimal_digits(n as nat),
    decreases n,
{
    if n >= 10 {
        push_decimal(out, n / 10);
    }
    out.append(digit_str(n % 10));
    assert(out@ =~= old(out)@ + decimal_digits(n as nat));
}

/// Appends the digits of the fraction `part / scale` to `out`.
fn push_fraction(out: &mut String, part: u128, scale: u128)
    requires
        part < scale,
        is_power_of_ten(scale as nat),
    ensures
        final(out)@ == old(out)@ + fraction_digits(part as nat, scale as nat),
    decreases scale,
{
    if part == 0 || scale < 10 {
        assert(out@ =~= old(out)@ + fraction_digits(part as nat, scale as nat));
        return ;
    }
    let step: u128 = scale / 10;
    proof {
        lemma_quotient_below(part as int, step as int, 10);
    }
    out.append(digit_str(part / step));
    push_fraction(out, part % step, step);
    assert(out@ =~= old(out)@ + fraction_digits(part as nat, scale as nat));
}

/// Writes a number out.
fn write_decimal(negative: bool, whole: u128, part: u128, scale: u128) -> (text: String)
    requires
        part < scale,
        is_power_of_ten(scale as nat),
    ensures
        text@ == decimal_of(negative, whole as nat, part as nat, scale as nat),
{
    let mut text = String::new();
    if negative {
        text.append("-");
    }
    push_decimal(&mut text, whole);
    if part != 0 {
        text.append(".");
        push_fraction(&mut text, part, scale);
    }
    proof {
        reveal_strlit("-");
        reveal_strlit(".");
        assert(text@ =~= decimal_of(negative, whole as nat, part as nat, scale as nat));
    }
    text
}

impl Component {
    /// This component written in decimal, as short as it can be: `0.2`, `-1`, `360`.
    pub fn to_string(&self) -> (text: String)
        ensures
            text@ == component_text(self@),
    {
        let wide: i128 = self.trillionths as i128;
        let size: u128 = if wide < 0 {
            (-wide) as u128
        } else {
            wide as u128
        };
        proof {
            reveal_with_fuel(is_power_of_ten, 14);
        }
        write_decimal(wide < 0, size / (UNIT as u128), size % (UNIT as u128), UNIT as u128)
    }
}

impl NumType {
    /// This number written in decimal, as short as it can be: `10.2`, `-1`, `0.05`.
    pub fn to_string(&self) -> (text: String)
        ensures
            text@ == decimal_text(self@),
    {
        let negative = self.steps < 0;
        let size: u128 = if negative {
            if self.steps == i128::MIN {
                0x8000_0000_0000_0000_0000_0000_0000_0000
            } else {
                (-self.steps) as u128
            }
        } else {
            self.steps as u128
        };
        proof {
            reveal_with_fuel(is_power_of_ten, 38);
        }
        write_decimal(negative, size / (STEPS as u128), 4 * (size % (STEPS as u128)), FOUR_STEPS)
    }
}

} // verus!

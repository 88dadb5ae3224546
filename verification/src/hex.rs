//! Colours written as hexadecimal text: `RRGGBB`, with or without a leading `#`.
//!
//! A text is 6 or 7 characters long. What follows the `#`, or the whole text
//! where there is none, is read as one hexadecimal number of at most 24 bits:
//! `#12345` is the colour `012345`, and `0123456` the colour `123456`.

use vstd::prelude::*;
use vstd::string::*;

verus! {

/// The value of the hexadecimal digit `c`, in either case, if it is one.
pub open spec fn hex_digit(c: char) -> Option<int> {
    if '0' <= c <= '9' {
        Some(c as int - '0' as int)
    } else if 'a' <= c <= 'f' {
        Some(c as int - 'a' as int + 10)
    } else if 'A' <= c <= 'F' {
        Some(c as int - 'A' as int + 10)
    } else {
        None
    }
}

/// Whether every character of `s` is a hexadecimal digit.
pub open spec fn is_hex(s: Seq<char>) -> bool {
    forall|i: int| 0 <= i < s.len() ==> (#[trigger] hex_digit(s[i])) is Some
}

/// The number that the hexadecimal digits `s` write, the most significant first.
pub open spec fn hex_value(s: Seq<char>) -> int
    decreases s.len(),
{
    if s.len() == 0 {
        0
    } else {
        16 * hex_value(s.drop_last()) + match hex_digit(s.last()) {
            Some(d) => d,
            None => 0,
        }
    }
}

/// The text without the `#` that it may start with.
pub open spec fn hex_payload(text: Seq<char>) -> Seq<char> {
    if text.len() > 0 && text[0] == '#' {
        text.subrange(1, text.len() as int)
    } else {
        text
    }
}

/// Whether the text has the length of a hex colour: 6 characters, or 7.
pub open spec fn has_hex_length(text: Seq<char>) -> bool {
    text.len() == 6 || text.len() == 7
}

/// The red, green and blue bytes that `text` writes, if it writes a colour:
/// it must have the length of one, and its payload must be hexadecimal digits
/// that say no more than 24 bits. Red is the highest byte and blue the lowest.
pub open spec fn hex_colour(text: Seq<char>) -> Option<(int, int, int)> {
    let digits = hex_payload(text);
    if has_hex_length(text) && is_hex(digits) && hex_value(digits) < 0x100_0000 {
        let value = hex_value(digits);
        Some((value / 0x1_0000, value / 0x100 % 0x100, value % 0x100))
    } else {
        None
    }
}

/// Sixteen to the power of `n`.
pub open spec fn sixteen_to(n: nat) -> int
    decreases n,
{
    if n == 0 {
        1
    } else {
        16 * sixteen_to((n - 1) as nat)
    }
}

/// The value of one hexadecimal digit.
fn digit_value(c: char) -> (d: Option<u32>)
    ensures
        match d {
            Some(v) => hex_digit(c) == Some(v as int) && v < 16,
            None => hex_digit(c) is None,
        },
{
    if '0' <= c && c <= '9' {
        Some(c as u32 - '0' as u32)
    } else if 'a' <= c && c <= 'f' {
        Some(c as u32 - 'a' as u32 + 10)
    } else if 'A' <= c && c <= 'F' {
        Some(c as u32 - 'A' as u32 + 10)
    } else {
        None
    }
}

/// Reads a hex colour: `Some` of its red, green and blue bytes if `text` is
/// one, `None` if its length, its characters or its size are wrong.
pub fn read_hex(text: &str) -> (rgb: Option<(u8, u8, u8)>)
    ensures
        match rgb {
            Some((r, g, b)) => hex_colour(text@) == Some((r as int, g as int, b as int)),
            None => hex_colour(text@) is None,
        },
{
    let len = text.unicode_len();
    if len != 6 && len != 7 {
        return None;
    }
    let start: usize = if text.get_char(0) == '#' {
        1
    } else {
        0
    };
    let ghost digits = hex_payload(text@);
    assert(digits =~= text@.subrange(start as int, len as int));
    let mut value: u32 = 0;
    let mut i: usize = start;
    while i < len
        invariant
            start <= i <= len,
            len == text@.len(),
            len <= 7,
            digits == hex_payload(text@),
            digits == text@.subrange(start as int, len as int),
            is_hex(digits.take(i - start)),
            value == hex_value(digits.take(i - start)),
            value < sixteen_to((i - start) as nat),
        decreases len - i,
    {
        let ghost seen = digits.take(i - start);
        let ghost next = digits.take(i + 1 - start);
        proof {
            assert(next.drop_last() =~= seen);
            assert(next.last() == text@[i as int]);
            reveal_with_fuel(sixteen_to, 8);
        }
        match digit_value(text.get_char(i)) {
            Some(d) => {
                value = 16 * value + d;
            },
            None => {
                proof {
                    assert(digits[i - start] == text@[i as int]);
                    assert(hex_digit(digits[i - start]) is None);
                }
                return None;
            },
        }
        i = i + 1;
    }
    proof {
        assert(digits.take(len - start) =~= digits);
    }
    if value >= 0x100_0000 {
        return None;
    }
    Some(((value / 0x1_0000) as u8, (value / 0x100 % 0x100) as u8, (value % 0x100) as u8))
}

} // verus!

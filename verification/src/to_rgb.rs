//! Conversions from HSL, HSV and CMYK into RGB.
//!
//! The strongest and the weakest channel that come out, and every channel
//! out of CMYK, are the exact values of their formulas: a channel is counted
//! finely enough to hold them. The channel between the two holds the product
//! of three components and is the exact value rounded down to a whole step.

use vstd::prelude::*;
use crate::arith::lemma_product_bound;
use crate::bounds::{
    lemma_cmyk_channel_in_range, lemma_hsl_chroma_bounds, lemma_hsv_chroma_bounds,
    lemma_spread_in_range,
};
use crate::num::{magnitude, Component, NumType, UNIT, UNIT_SQUARED};
use crate::range::{is_channel, is_hue, is_ratio};

verus! {

/// What one `2 * UNIT_SQUARED`-th of full strength, 255, comes to in steps:
/// `255 * STEPS / (2 * UNIT_SQUARED)`.
#[verifier::inline]
pub const LEVEL: i128 = 31_875_000_000_000;

/// The chroma `(1 - |2l - 1|) * s` of an HSL colour, as a count of `UNIT_SQUARED`-ths.
pub open spec fn hsl_chroma(s: int, l: int) -> int {
    (UNIT - magnitude(2 * l - UNIT)) * s
}

/// The chroma `v * s` of an HSV colour, as a count of `UNIT_SQUARED`-ths.
pub open spec fn hsv_chroma(s: int, v: int) -> int {
    v * s
}

/// The share `1 - |(h / 60 mod 2) - 1|` of the chroma that the second-strongest
/// channel receives at hue `h`, as a count of `60 * UNIT`-ths.
pub open spec fn hue_share(h: int) -> int {
    60 * UNIT - magnitude(h % (120 * UNIT) - 60 * UNIT)
}

/// The sixth of the colour wheel that hue `h` falls in, from 0 to 5. Each sector
/// starts at a multiple of 60 degrees; the last one takes in 360 itself.
pub open spec fn sector(h: int) -> int {
    if h >= 360 * UNIT {
        5
    } else {
        h / (60 * UNIT)
    }
}

/// The weakest channel `255 * m`, exactly, where `offset` counts the offset
/// `m` in `2 * UNIT_SQUARED`-ths.
pub open spec fn level_low(offset: int) -> int {
    LEVEL * offset
}

/// The strongest channel `255 * (m + c)`, exactly, with `chroma` counting `c`
/// in `UNIT_SQUARED`-ths.
pub open spec fn level_high(offset: int, chroma: int) -> int {
    LEVEL * (offset + 2 * chroma)
}

/// The second-strongest channel `255 * (m + x)`, where `x` is the chroma times
/// its share at hue `h`, rounded down to a whole step. The sum in brackets
/// counts `m + x` in `120 * UNIT * UNIT_SQUARED`-ths, of which 32 make 17
/// steps of a channel.
pub open spec fn level_mid(offset: int, chroma: int, h: int) -> int {
    17 * (60 * UNIT * offset + 2 * chroma * hue_share(h)) / 32
}

/// The three levels laid out as red, green and blue for the given sector.
pub open spec fn arrange(sector: int, high: int, mid: int, low: int) -> (int, int, int) {
    if sector == 0 {
        (high, mid, low)
    } else if sector == 1 {
        (mid, high, low)
    } else if sector == 2 {
        (low, high, mid)
    } else if sector == 3 {
        (low, mid, high)
    } else if sector == 4 {
        (mid, low, high)
    } else {
        (high, low, mid)
    }
}

/// Red, green and blue of the colour with the given chroma and offset at hue `h`.
pub open spec fn spread_spec(offset: int, chroma: int, h: int) -> (int, int, int) {
    arrange(
        sector(h),
        level_high(offset, chroma),
        level_mid(offset, chroma, h),
        level_low(offset),
    )
}

/// What [`hsl_to_rgb`] returns: the offset is `m = l - c / 2`.
pub open spec fn hsl_to_rgb_spec(h: int, s: int, l: int) -> (int, int, int) {
    let chroma = hsl_chroma(s, l);
    spread_spec(2 * UNIT * l - chroma, chroma, h)
}

/// What [`hsv_to_rgb`] returns: the offset is `m = v - c`.
pub open spec fn hsv_to_rgb_spec(h: int, s: int, v: int) -> (int, int, int) {
    let chroma = hsv_chroma(s, v);
    spread_spec(2 * UNIT * v - 2 * chroma, chroma, h)
}

/// One channel `255 * (1 - ink) * (1 - black)` of a CMYK colour, exactly.
pub open spec fn cmyk_channel(ink: int, black: int) -> int {
    LEVEL * (2 * ((UNIT - ink) * (UNIT - black)))
}

/// What [`cmyk_to_rgb`] returns.
pub open spec fn cmyk_to_rgb_spec(c: int, m: int, y: int, k: int) -> (int, int, int) {
    (cmyk_channel(c, k), cmyk_channel(m, k), cmyk_channel(y, k))
}

/// Lays chroma and offset out over the three channels for hue `hue`.
fn spread(offset: u128, chroma: u128, hue: u128) -> (rgb: (NumType, NumType, NumType))
    requires
        offset + 2 * chroma <= 2 * UNIT_SQUARED,
        hue <= 360 * UNIT,
    ensures
        (rgb.0@, rgb.1@, rgb.2@) == spread_spec(offset as int, chroma as int, hue as int),
        is_channel(rgb.0@),
        is_channel(rgb.1@),
        is_channel(rgb.2@),
{
    let turn: u128 = hue % 120_000_000_000_000;
    let share: u128 = if turn >= 60_000_000_000_000 {
        120_000_000_000_000 - turn
    } else {
        turn
    };
    proof {
        lemma_product_bound(2 * chroma, share as int, 2 * chroma, 60 * UNIT);
        lemma_spread_in_range(offset as int, chroma as int, hue as int);
    }
    let low: u128 = 31_875_000_000_000 * offset;
    let high: u128 = 31_875_000_000_000 * (offset + 2 * chroma);
    let sum: u128 = 60_000_000_000_000 * offset + 2 * chroma * share;
    let mid: u128 = 17 * (sum / 32) + 17 * (sum % 32) / 32;
    assert(mid == 17 * sum / 32);
    let (r, g, b) = if hue < 60_000_000_000_000 {
        (high, mid, low)
    } else if hue < 120_000_000_000_000 {
        (mid, high, low)
    } else if hue < 180_000_000_000_000 {
        (low, high, mid)
    } else if hue < 240_000_000_000_000 {
        (low, mid, high)
    } else if hue < 300_000_000_000_000 {
        (mid, low, high)
    } else {
        (high, low, mid)
    };
    (NumType { steps: r as i128 }, NumType { steps: g as i128 }, NumType { steps: b as i128 })
}

/// Converts hue, saturation and lightness to red, green and blue. A hue of
/// 360 gives what a hue of 0 gives.
pub fn hsl_to_rgb(hue: Component, sateration: Component, lightness: Component) -> (rgb: (
    NumType,
    NumType,
    NumType,
))
    requires
        is_hue(hue@),
        is_ratio(sateration@),
        is_ratio(lightness@),
    ensures
        (rgb.0@, rgb.1@, rgb.2@) == hsl_to_rgb_spec(hue@, sateration@, lightness@),
        is_channel(rgb.0@),
        is_channel(rgb.1@),
        is_channel(rgb.2@),
{
    let l: u128 = lightness.trillionths as u128;
    let s: u128 = sateration.trillionths as u128;
    let width: u128 = if 2 * l >= 1_000_000_000_000 {
        2_000_000_000_000 - 2 * l
    } else {
        2 * l
    };
    proof {
        lemma_hsl_chroma_bounds(s as int, l as int);
    }
    let chroma: u128 = width * s;
    spread(2_000_000_000_000 * l - chroma, chroma, hue.trillionths as u128)
}

/// Converts hue, saturation and value to red, green and blue. A hue of 360
/// gives what a hue of 0 gives.
pub fn hsv_to_rgb(hue: Component, sateration: Component, value: Component) -> (rgb: (
    NumType,
    NumType,
    NumType,
))
    requires
        is_hue(hue@),
        is_ratio(sateration@),
        is_ratio(value@),
    ensures
        (rgb.0@, rgb.1@, rgb.2@) == hsv_to_rgb_spec(hue@, sateration@, value@),
        is_channel(rgb.0@),
        is_channel(rgb.1@),
        is_channel(rgb.2@),
{
    let v: u128 = value.trillionths as u128;
    let s: u128 = sateration.trillionths as u128;
    proof {
        lemma_hsv_chroma_bounds(s as int, v as int);
    }
    let chroma: u128 = v * s;
    spread(2_000_000_000_000 * v - 2 * chroma, chroma, hue.trillionths as u128)
}

/// Converts cyan, magenta, yellow and black to red, green and blue.
pub fn cmyk_to_rgb(cyan: Component, magenta: Component, yellow: Component, black: Component) -> (rgb:
    (NumType, NumType, NumType))
    requires
        is_ratio(cyan@),
        is_ratio(magenta@),
        is_ratio(yellow@),
        is_ratio(black@),
    ensures
        (rgb.0@, rgb.1@, rgb.2@) == cmyk_to_rgb_spec(cyan@, magenta@, yellow@, black@),
        is_channel(rgb.0@),
        is_channel(rgb.1@),
        is_channel(rgb.2@),
{
    (ink_to_channel(cyan, black), ink_to_channel(magenta, black), ink_to_channel(yellow, black))
}

/// Converts cyan, magenta, yellow and black to red, green and blue: see [`cmyk_to_rgb`].
pub fn cymk_to_rgb(cyan: Component, magenta: Component, yellow: Component, black: Component) -> (rgb:
    (NumType, NumType, NumType))
    requires
        is_ratio(cyan@),
        is_ratio(magenta@),
        is_ratio(yellow@),
        is_ratio(black@),
    ensures
        (rgb.0@, rgb.1@, rgb.2@) == cmyk_to_rgb_spec(cyan@, magenta@, yellow@, black@),
        is_channel(rgb.0@),
        is_channel(rgb.1@),
        is_channel(rgb.2@),
{
    cmyk_to_rgb(cyan, magenta, yellow, black)
}

/// The channel that is left where `ink` and `black` have been laid down.
fn ink_to_channel(ink: Component, black: Component) -> (channel: NumType)
    requires
        is_ratio(ink@),
        is_ratio(black@),
    ensures
        channel@ == cmyk_channel(ink@, black@),
        is_channel(channel@),
{
    let clear: u128 = 1_000_000_000_000 - (ink.trillionths as u128);
    let light: u128 = 1_000_000_000_000 - (black.trillionths as u128);
    proof {
        lemma_product_bound(clear as int, light as int, UNIT as int, UNIT as int);
        lemma_cmyk_channel_in_range(ink@, black@);
    }
    let channel: u128 = 31_875_000_000_000 * (2 * (clear * light));
    NumType { steps: channel as i128 }
}

} // verus!

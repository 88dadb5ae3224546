//! Every conversion takes components and channels in range to components and
//! channels in range.

use vstd::prelude::*;
use crate::arith::{lemma_product_bound, lemma_quotient_below, lemma_quotient_bound};
use crate::from_rgb::{hue_of, rgb_to_cmyk_spec, rgb_to_hsl_spec, rgb_to_hsv_spec};
use crate::helper::{max3, min3};
use crate::num::{magnitude, STEPS, UNIT, UNIT_SQUARED};
use crate::range::{is_channel, is_hue, is_ratio};
use crate::rgba::is_rgb;
use crate::to_rgb::{
    cmyk_channel, cmyk_to_rgb_spec, hsl_chroma, hsl_to_rgb_spec, hsv_chroma, hsv_to_rgb_spec,
    hue_share, level_high, level_low, level_mid, spread_spec,
};

verus! {

/// A chroma and an offset that together stay within the unit give three
/// channels, of which the middle one lies between the other two.
pub proof fn lemma_spread_in_range(offset: int, chroma: int, h: int)
    requires
        0 <= offset,
        0 <= chroma,
        offset + 2 * chroma <= 2 * UNIT_SQUARED,
        is_hue(h),
    ensures
        is_rgb(spread_spec(offset, chroma, h)),
        level_low(offset) <= level_mid(offset, chroma, h) <= level_high(offset, chroma),
        0 <= 60 * UNIT * offset + 2 * chroma * hue_share(h) <= 60 * UNIT * (offset + 2 * chroma),
{
    let share = hue_share(h);
    lemma_product_bound(2 * chroma, share, 2 * chroma, 60 * UNIT);
}

/// The chroma of an HSL colour leaves room for it below and above the lightness.
pub proof fn lemma_hsl_chroma_bounds(s: int, l: int)
    requires
        is_ratio(s),
        is_ratio(l),
    ensures
        0 <= hsl_chroma(s, l) <= 2 * UNIT * l,
        2 * UNIT * l + hsl_chroma(s, l) <= 2 * UNIT_SQUARED,
{
    let width = UNIT - magnitude(2 * l - UNIT);
    lemma_product_bound(width, s, width, UNIT as int);
}

/// The chroma of an HSV colour is no more than its value.
pub proof fn lemma_hsv_chroma_bounds(s: int, v: int)
    requires
        is_ratio(s),
        is_ratio(v),
    ensures
        0 <= hsv_chroma(s, v) <= UNIT * v,
{
    lemma_product_bound(v, s, v, UNIT as int);
}

/// An HSL colour converts to channels between 0 and 255.
pub proof fn lemma_hsl_to_rgb_in_range(h: int, s: int, l: int)
    requires
        is_hue(h),
        is_ratio(s),
        is_ratio(l),
    ensures
        is_rgb(hsl_to_rgb_spec(h, s, l)),
{
    lemma_hsl_chroma_bounds(s, l);
    let chroma = hsl_chroma(s, l);
    lemma_spread_in_range(2 * UNIT * l - chroma, chroma, h);
}

/// An HSV colour converts to channels between 0 and 255.
pub proof fn lemma_hsv_to_rgb_in_range(h: int, s: int, v: int)
    requires
        is_hue(h),
        is_ratio(s),
        is_ratio(v),
    ensures
        is_rgb(hsv_to_rgb_spec(h, s, v)),
{
    lemma_hsv_chroma_bounds(s, v);
    let chroma = hsv_chroma(s, v);
    lemma_spread_in_range(2 * UNIT * v - 2 * chroma, chroma, h);
}

/// What ink and black leave of a channel lies between 0 and 255.
pub proof fn lemma_cmyk_channel_in_range(ink: int, black: int)
    requires
        is_ratio(ink),
        is_ratio(black),
    ensures
        is_channel(cmyk_channel(ink, black)),
{
    lemma_product_bound(UNIT - ink, UNIT - black, UNIT as int, UNIT as int);
    assert((UNIT as int) * (UNIT as int) == UNIT_SQUARED) by (nonlinear_arith);
}

/// A CMYK colour converts to channels between 0 and 255.
pub proof fn lemma_cmyk_to_rgb_in_range(c: int, m: int, y: int, k: int)
    requires
        is_ratio(c),
        is_ratio(m),
        is_ratio(y),
        is_ratio(k),
    ensures
        is_rgb(cmyk_to_rgb_spec(c, m, y, k)),
{
    lemma_cmyk_channel_in_range(c, k);
    lemma_cmyk_channel_in_range(m, k);
    lemma_cmyk_channel_in_range(y, k);
}

/// The hue of an RGB colour lies between 0 and 360, and never is 360.
pub proof fn lemma_hue_in_range(r: int, g: int, b: int)
    requires
        is_rgb((r, g, b)),
    ensures
        0 <= hue_of(r, g, b) < 360 * UNIT,
{
    let top = max3(r, g, b);
    let delta = top - min3(r, g, b);
    if delta != 0 {
        if top == r {
            if g >= b {
                lemma_quotient_bound(60 * UNIT * (g - b), delta, 60 * UNIT);
            } else {
                lemma_quotient_below(60 * UNIT * (g - b + 6 * delta), delta, 360 * UNIT);
            }
        } else if top == g {
            lemma_quotient_bound(60 * UNIT * (b - r + 2 * delta), delta, 180 * UNIT);
        } else {
            lemma_quotient_bound(60 * UNIT * (r - g + 4 * delta), delta, 300 * UNIT);
        }
    }
}

/// An RGB colour converts to HSL components in range.
pub proof fn lemma_rgb_to_hsl_in_range(r: int, g: int, b: int)
    requires
        is_rgb((r, g, b)),
    ensures
        ({
            let (h, s, l) = rgb_to_hsl_spec(r, g, b);
            0 <= h < 360 * UNIT && is_ratio(s) && is_ratio(l)
        }),
{
    lemma_hue_in_range(r, g, b);
    let top = max3(r, g, b);
    let bottom = min3(r, g, b);
    if top != bottom {
        let room = 255 * STEPS - magnitude(top + bottom - 255 * STEPS);
        lemma_quotient_bound(UNIT * (top - bottom), room, UNIT as int);
    }
}

/// An RGB colour converts to HSV components in range.
pub proof fn lemma_rgb_to_hsv_in_range(r: int, g: int, b: int)
    requires
        is_rgb((r, g, b)),
    ensures
        ({
            let (h, s, v) = rgb_to_hsv_spec(r, g, b);
            0 <= h < 360 * UNIT && is_ratio(s) && is_ratio(v)
        }),
{
    lemma_hue_in_range(r, g, b);
    let top = max3(r, g, b);
    if top != 0 {
        lemma_quotient_bound(UNIT * (top - min3(r, g, b)), top, UNIT as int);
    }
}

/// An RGB colour converts to CMYK components in range.
pub proof fn lemma_rgb_to_cmyk_in_range(r: int, g: int, b: int)
    requires
        is_rgb((r, g, b)),
    ensures
        ({
            let (c, m, y, k) = rgb_to_cmyk_spec(r, g, b);
            is_ratio(c) && is_ratio(m) && is_ratio(y) && is_ratio(k)
        }),
{
    let top = max3(r, g, b);
    if top != 0 {
        lemma_quotient_bound(UNIT * (top - r), top, UNIT as int);
        lemma_quotient_bound(UNIT * (top - g), top, UNIT as int);
        lemma_quotient_bound(UNIT * (top - b), top, UNIT as int);
    }
}

} // verus!

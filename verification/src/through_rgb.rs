//! What comes back when an HSV or an HSL colour is taken through RGB and back.

use vstd::prelude::*;
use crate::arith::lemma_quotient_between;
use crate::bounds::{lemma_hsl_chroma_bounds, lemma_hsv_chroma_bounds};
use crate::from_rgb::{
    hsl_saturation_of, hsv_saturation_of, hue_of, lightness_of, rgb_to_hsl_spec, rgb_to_hsv_spec,
    value_of,
};
use crate::levels::{hue_slack, lemma_hue_from_levels, lemma_levels_fit};
use crate::num::{magnitude, GRAIN, STEPS, UNIT};
use crate::range::{is_hue, is_ratio};
use crate::to_rgb::{
    hsl_chroma, hsl_to_rgb_spec, hsv_chroma, hsv_to_rgb_spec, level_high, level_low, LEVEL,
};
use crate::wheel::near;

verus! {

/// **The value of an HSV colour comes back from RGB exactly**, whatever the colour.
pub proof fn lemma_value_survives_rgb(h: int, s: int, v: int)
    requires
        is_hue(h),
        is_ratio(s),
        is_ratio(v),
    ensures
        ({
            let (r, g, b) = hsv_to_rgb_spec(h, s, v);
            value_of(r, g, b) == v
        }),
{
    lemma_hsv_chroma_bounds(s, v);
    let chroma = hsv_chroma(s, v);
    lemma_levels_fit(h, 2 * UNIT * v - 2 * chroma, chroma);
}

/// **The saturation of an HSV colour comes back from RGB exactly** where
/// the colour is not black. Black has no saturation to come back: it reads as 0.
pub proof fn lemma_saturation_survives_rgb(h: int, s: int, v: int)
    requires
        is_hue(h),
        is_ratio(s),
        is_ratio(v),
        v > 0,
    ensures
        ({
            let (r, g, b) = hsv_to_rgb_spec(h, s, v);
            hsv_saturation_of(r, g, b) == s
        }),
{
    lemma_hsv_chroma_bounds(s, v);
    let chroma = hsv_chroma(s, v);
    let offset = 2 * UNIT * v - 2 * chroma;
    lemma_levels_fit(h, offset, chroma);
    let high = level_high(offset, chroma);
    let low = level_low(offset);
    assert(UNIT * (high - low) == s * high && high > 0) by (nonlinear_arith)
        requires
            high == LEVEL * (2 * UNIT * v - 2 * chroma + 2 * chroma),
            high - low == 2 * LEVEL * chroma,
            chroma == v * s,
            v > 0,
    ;
    assert((s + 1) * high == s * high + high) by (nonlinear_arith);
    lemma_quotient_between(UNIT * (high - low), high, s, s);
}

/// **The hue of an HSV colour comes back from RGB** to within a trillionth
/// of a degree, as a number, where the colour is no grey and its hue is less
/// than 360. A grey has no hue to come back, and a hue of 360 names the colour
/// that 0 names: both read as 0.
pub proof fn lemma_hue_survives_rgb(h: int, s: int, v: int)
    requires
        0 <= h < 360 * UNIT,
        is_ratio(s),
        is_ratio(v),
        s > 0,
        v > 0,
    ensures
        ({
            let (r, g, b) = hsv_to_rgb_spec(h, s, v);
            near(hue_of(r, g, b), h, hue_slack())
        }),
{
    lemma_hsv_chroma_bounds(s, v);
    let chroma = hsv_chroma(s, v);
    assert(chroma > 0) by (nonlinear_arith)
        requires
            s > 0,
            v > 0,
            chroma == v * s,
    ;
    lemma_hue_from_levels(h, 2 * UNIT * v - 2 * chroma, chroma);
}

/// **Hue, saturation and value come back from RGB.** Converting an HSV
/// colour to RGB and the result back to HSV gives the saturation and the
/// value exactly and the hue to within a trillionth of a degree, far within
/// a ten-millionth, for every hue from 0 to short of 360 and every
/// saturation and value above 0 and up to 1.
pub proof fn lemma_hsv_survives_rgb(h: int, s: int, v: int)
    requires
        0 <= h < 360 * UNIT,
        is_ratio(s),
        is_ratio(v),
        s > 0,
        v > 0,
    ensures
        ({
            let (r, g, b) = hsv_to_rgb_spec(h, s, v);
            let (h2, s2, v2) = rgb_to_hsv_spec(r, g, b);
            near(h2, h, hue_slack()) && s2 == s && v2 == v
        }),
{
    lemma_value_survives_rgb(h, s, v);
    lemma_saturation_survives_rgb(h, s, v);
    lemma_hue_survives_rgb(h, s, v);
}

/// **The lightness of an HSL colour comes back from RGB exactly**, whatever the colour.
pub proof fn lemma_lightness_survives_rgb(h: int, s: int, l: int)
    requires
        is_hue(h),
        is_ratio(s),
        is_ratio(l),
    ensures
        ({
            let (r, g, b) = hsl_to_rgb_spec(h, s, l);
            lightness_of(r, g, b) == l
        }),
{
    lemma_hsl_chroma_bounds(s, l);
    let chroma = hsl_chroma(s, l);
    let offset = 2 * UNIT * l - chroma;
    lemma_levels_fit(h, offset, chroma);
    let high = level_high(offset, chroma);
    let low = level_low(offset);
    assert(high + low == 510 * GRAIN * l) by (nonlinear_arith)
        requires
            high == LEVEL * (2 * UNIT * l - chroma + 2 * chroma),
            low == LEVEL * (2 * UNIT * l - chroma),
    ;
}

/// **The saturation of an HSL colour comes back from RGB exactly** where
/// the colour is neither black nor white. Those two have no saturation to
/// come back: they read as 0.
pub proof fn lemma_hsl_saturation_survives_rgb(h: int, s: int, l: int)
    requires
        is_hue(h),
        is_ratio(s),
        0 < l < UNIT,
    ensures
        ({
            let (r, g, b) = hsl_to_rgb_spec(h, s, l);
            hsl_saturation_of(r, g, b) == s
        }),
{
    lemma_hsl_chroma_bounds(s, l);
    let chroma = hsl_chroma(s, l);
    let offset = 2 * UNIT * l - chroma;
    lemma_levels_fit(h, offset, chroma);
    let high = level_high(offset, chroma);
    let low = level_low(offset);
    let width = UNIT - magnitude(2 * l - UNIT);
    let room = 255 * STEPS - magnitude(high + low - 255 * STEPS);
    assert(high + low == 510 * GRAIN * l) by (nonlinear_arith)
        requires
            high == LEVEL * (2 * UNIT * l - chroma + 2 * chroma),
            low == LEVEL * (2 * UNIT * l - chroma),
    ;
    assert(room == 255 * GRAIN * width);
    assert(UNIT * (high - low) == s * room && (high == low <==> s == 0)) by (nonlinear_arith)
        requires
            high - low == 2 * LEVEL * chroma,
            chroma == width * s,
            room == 255 * GRAIN * width,
            width > 0,
            s >= 0,
    ;
    if s > 0 {
        assert((s + 1) * room == s * room + room) by (nonlinear_arith);
        lemma_quotient_between(UNIT * (high - low), room, s, s);
    }
}

/// **Hue, saturation and lightness come back from RGB.** Converting an HSL
/// colour to RGB and the result back to HSL gives the saturation and the
/// lightness exactly and the hue to within a trillionth of a degree, for
/// every hue from 0 to short of 360, every saturation above 0 and every
/// lightness strictly between 0 and 1.
pub proof fn lemma_hsl_survives_rgb(h: int, s: int, l: int)
    requires
        0 <= h < 360 * UNIT,
        is_ratio(s),
        s > 0,
        0 < l < UNIT,
    ensures
        ({
            let (r, g, b) = hsl_to_rgb_spec(h, s, l);
            let (h2, s2, l2) = rgb_to_hsl_spec(r, g, b);
            near(h2, h, hue_slack()) && s2 == s && l2 == l
        }),
{
    lemma_lightness_survives_rgb(h, s, l);
    lemma_hsl_saturation_survives_rgb(h, s, l);
    lemma_hsl_chroma_bounds(s, l);
    let chroma = hsl_chroma(s, l);
    assert(chroma > 0) by (nonlinear_arith)
        requires
            s > 0,
            UNIT - magnitude(2 * l - UNIT) > 0,
            chroma == (UNIT - magnitude(2 * l - UNIT)) * s,
    ;
    lemma_hue_from_levels(h, 2 * UNIT * l - chroma, chroma);
}

} // verus!

//! Conversions from RGB into HSL, HSV and CMYK.
//!
//! Each component that comes out is the exact value of its formula, rounded
//! down to a whole number of trillionths.

use vstd::prelude::*;
use crate::arith::lemma_quotient_between;
use crate::bounds::{
    lemma_rgb_to_cmyk_in_range, lemma_rgb_to_hsl_in_range, lemma_rgb_to_hsv_in_range,
};
use crate::helper::{max, max3, min, min3};
use crate::num::{magnitude, Component, NumType, GRAIN, STEPS, UNIT};
use crate::range::{is_channel, is_ratio};
use crate::wide::times_over;

verus! {

/// The hue, in degrees, of the colour with channels `r`, `g` and `b`: zero for a
/// grey, else sixty times the position between the two strongest channels,
/// counted from red through green and blue and back to red.
pub open spec fn hue_of(r: int, g: int, b: int) -> int {
    let top = max3(r, g, b);
    let delta = top - min3(r, g, b);
    if delta == 0 {
        0
    } else if top == r {
        if g >= b {
            60 * UNIT * (g - b) / delta
        } else {
            60 * UNIT * (g - b + 6 * delta) / delta
        }
    } else if top == g {
        60 * UNIT * (b - r + 2 * delta) / delta
    } else {
        60 * UNIT * (r - g + 4 * delta) / delta
    }
}

/// The lightness `(cmin + cmax) / 2` of the channels once scaled to between 0 and 1.
pub open spec fn lightness_of(r: int, g: int, b: int) -> int {
    (max3(r, g, b) + min3(r, g, b)) / (510 * GRAIN)
}

/// The HSL saturation `delta / (1 - |2l - 1|)`, zero for a grey.
pub open spec fn hsl_saturation_of(r: int, g: int, b: int) -> int {
    let top = max3(r, g, b);
    let bottom = min3(r, g, b);
    if top == bottom {
        0
    } else {
        UNIT * (top - bottom) / (255 * STEPS - magnitude(top + bottom - 255 * STEPS))
    }
}

/// The HSV saturation `delta / cmax`, zero for black.
pub open spec fn hsv_saturation_of(r: int, g: int, b: int) -> int {
    let top = max3(r, g, b);
    if top == 0 {
        0
    } else {
        UNIT * (top - min3(r, g, b)) / top
    }
}

/// The HSV value: the strongest channel scaled to between 0 and 1.
pub open spec fn value_of(r: int, g: int, b: int) -> int {
    max3(r, g, b) / (255 * GRAIN)
}

/// The black share `1 - cmax` of the channels once scaled to between 0 and 1.
pub open spec fn black_of(r: int, g: int, b: int) -> int {
    (255 * STEPS - max3(r, g, b)) / (255 * GRAIN)
}

/// The share `(1 - x - k) / (1 - k)` of the ink that takes `channel` away from
/// the strongest channel `top`; zero for black, where there is nothing to share.
pub open spec fn ink_of(channel: int, top: int) -> int {
    if top == 0 {
        0
    } else {
        UNIT * (top - channel) / top
    }
}

/// What [`rgb_to_hsl`] returns.
pub open spec fn rgb_to_hsl_spec(r: int, g: int, b: int) -> (int, int, int) {
    (hue_of(r, g, b), hsl_saturation_of(r, g, b), lightness_of(r, g, b))
}

/// What [`rgb_to_hsv`] returns.
pub open spec fn rgb_to_hsv_spec(r: int, g: int, b: int) -> (int, int, int) {
    (hue_of(r, g, b), hsv_saturation_of(r, g, b), value_of(r, g, b))
}

/// What [`rgb_to_cmyk`] returns.
pub open spec fn rgb_to_cmyk_spec(r: int, g: int, b: int) -> (int, int, int, int) {
    let top = max3(r, g, b);
    (ink_of(r, top), ink_of(g, top), ink_of(b, top), black_of(r, g, b))
}

/// The hue that lies `part / delta` of a sixth of the wheel up from `sixths`
/// sixths, or down from them.
fn turn(part: u128, delta: u128, sixths: u128, up: bool) -> (h: u128)
    requires
        0 < delta <= 255 * STEPS,
        part <= delta,
        sixths <= 6,
        !up ==> sixths >= 2,
    ensures
        up ==> h == 60 * UNIT * (part + sixths * delta) / (delta as int),
        !up ==> h == 60 * UNIT * (sixths * delta - part) / (delta as int),
        h <= 420 * UNIT,
{
    let (q, rest) = times_over(60_000_000_000_000, part, delta);
    let base: u128 = 60_000_000_000_000 * sixths;
    if up {
        let h: u128 = base + q;
        proof {
            assert(h * delta <= 60 * UNIT * (part + sixths * delta) < (h + 1) * delta)
                by (nonlinear_arith)
                requires
                    h == 60 * UNIT * sixths + q,
                    q * delta + rest == 60 * UNIT * part,
                    0 <= rest < delta,
            ;
            lemma_quotient_between(
                60 * UNIT * (part + sixths * delta),
                delta as int,
                h as int,
                h as int,
            );
        }
        h
    } else {
        let h: u128 = if rest > 0 {
            base - q - 1
        } else {
            base - q
        };
        proof {
            assert(h * delta <= 60 * UNIT * (sixths * delta - part) < (h + 1) * delta)
                by (nonlinear_arith)
                requires
                    rest > 0 ==> h == 60 * UNIT * sixths - q - 1,
                    rest == 0 ==> h == 60 * UNIT * sixths - q,
                    q * delta + rest == 60 * UNIT * part,
                    0 <= rest < delta,
            ;
            lemma_quotient_between(
                60 * UNIT * (sixths * delta - part),
                delta as int,
                h as int,
                h as int,
            );
        }
        h
    }
}

/// The hue of a colour whose strongest channel is `top` and whose weakest is `bottom`.
fn hue(r: u128, g: u128, b: u128, top: u128, bottom: u128) -> (h: Component)
    requires
        top <= 255 * STEPS,
        top == max3(r as int, g as int, b as int),
        bottom == min3(r as int, g as int, b as int),
    ensures
        h@ == hue_of(r as int, g as int, b as int),
{
    let delta: u128 = top - bottom;
    if delta == 0 {
        return Component { trillionths: 0 };
    }
    let h: u128 = if top == r {
        if g >= b {
            turn(g - b, delta, 0, true)
        } else {
            turn(b - g, delta, 6, false)
        }
    } else if top == g {
        if b >= r {
            turn(b - r, delta, 2, true)
        } else {
            turn(r - b, delta, 2, false)
        }
    } else {
        if r >= g {
            turn(r - g, delta, 4, true)
        } else {
            turn(g - r, delta, 4, false)
        }
    };
    Component { trillionths: h as i64 }
}

/// `UNIT * part / whole`, for a part that is no more than the whole.
fn ratio(part: u128, whole: u128) -> (q: Component)
    requires
        part <= whole <= 255 * STEPS,
        0 < whole,
    ensures
        q@ == UNIT * part / (whole as int),
        is_ratio(q@),
{
    let (q, _rest) = times_over(1_000_000_000_000, part, whole);
    Component { trillionths: q as i64 }
}

/// Converts red, green and blue to hue, saturation and lightness. The hue
/// that comes out is less than 360.
pub fn rgb_to_hsl(r: NumType, g: NumType, b: NumType) -> (hsl: (Component, Component, Component))
    requires
        is_channel(r@),
        is_channel(g@),
        is_channel(b@),
    ensures
        (hsl.0@, hsl.1@, hsl.2@) == rgb_to_hsl_spec(r@, g@, b@),
        0 <= hsl.0@ < 360 * UNIT,
        is_ratio(hsl.1@),
        is_ratio(hsl.2@),
{
    let top: u128 = max(r, g, b).steps as u128;
    let bottom: u128 = min(r, g, b).steps as u128;
    let full: u128 = 63_750_000_000_000_000_000_000_000_000_000_000_000;
    let h = hue(r.steps as u128, g.steps as u128, b.steps as u128, top, bottom);
    let l: u128 = (top + bottom) / 127_500_000_000_000_000_000_000_000;
    let s = if top == bottom {
        Component { trillionths: 0 }
    } else if top + bottom >= full {
        ratio(top - bottom, 2 * full - (top + bottom))
    } else {
        ratio(top - bottom, top + bottom)
    };
    proof {
        lemma_rgb_to_hsl_in_range(r@, g@, b@);
    }
    (h, s, Component { trillionths: l as i64 })
}

/// Converts red, green and blue to hue, saturation and value. The hue that
/// comes out is less than 360.
pub fn rgb_to_hsv(r: NumType, g: NumType, b: NumType) -> (hsv: (Component, Component, Component))
    requires
        is_channel(r@),
        is_channel(g@),
        is_channel(b@),
    ensures
        (hsv.0@, hsv.1@, hsv.2@) == rgb_to_hsv_spec(r@, g@, b@),
        0 <= hsv.0@ < 360 * UNIT,
        is_ratio(hsv.1@),
        is_ratio(hsv.2@),
{
    let top: u128 = max(r, g, b).steps as u128;
    let bottom: u128 = min(r, g, b).steps as u128;
    let h = hue(r.steps as u128, g.steps as u128, b.steps as u128, top, bottom);
    let s = if top == 0 {
        Component { trillionths: 0 }
    } else {
        ratio(top - bottom, top)
    };
    let v: u128 = top / 63_750_000_000_000_000_000_000_000;
    proof {
        lemma_rgb_to_hsv_in_range(r@, g@, b@);
    }
    (h, s, Component { trillionths: v as i64 })
}

/// Converts red, green and blue to cyan, magenta, yellow and black. Black itself
/// comes out as no ink at all under full black.
pub fn rgb_to_cmyk(r: NumType, g: NumType, b: NumType) -> (cmyk: (
    Component,
    Component,
    Component,
    Component,
))
    requires
        is_channel(r@),
        is_channel(g@),
        is_channel(b@),
    ensures
        (cmyk.0@, cmyk.1@, cmyk.2@, cmyk.3@) == rgb_to_cmyk_spec(r@, g@, b@),
        is_ratio(cmyk.0@),
        is_ratio(cmyk.1@),
        is_ratio(cmyk.2@),
        is_ratio(cmyk.3@),
{
    let top: u128 = max(r, g, b).steps as u128;
    let full: u128 = 63_750_000_000_000_000_000_000_000_000_000_000_000;
    let k: u128 = (full - top) / 63_750_000_000_000_000_000_000_000;
    let black = Component { trillionths: k as i64 };
    proof {
        lemma_rgb_to_cmyk_in_range(r@, g@, b@);
    }
    if top == 0 {
        let none = Component { trillionths: 0 };
        (none, none, none, black)
    } else {
        (
            ratio(top - (r.steps as u128), top),
            ratio(top - (g.steps as u128), top),
            ratio(top - (b.steps as u128), top),
            black,
        )
    }
}

} // verus!

//! How the hue of an RGB colour tells its channels apart: which one is the
//! strongest, which the weakest, and where between the two the third one lies.

use vstd::prelude::*;
use crate::arith::lemma_quotient_brackets;
use crate::from_rgb::hue_of;
use crate::helper::{max3, min3};
use crate::num::{magnitude, UNIT};
use crate::rgba::is_rgb;
use crate::to_rgb::{arrange, hue_share, sector};

verus! {

/// Whether `a` and `b` are no more than `slack` apart.
pub open spec fn near(a: int, b: int, slack: int) -> bool {
    magnitude(a - b) <= slack
}

/// Whether two colours are no more than `slack` apart in each channel.
pub open spec fn near_rgb(a: (int, int, int), b: (int, int, int), slack: int) -> bool {
    near(a.0, b.0, slack) && near(a.1, b.1, slack) && near(a.2, b.2, slack)
}

/// The channel that is neither the strongest nor the weakest of the three.
pub open spec fn median3(r: int, g: int, b: int) -> int {
    r + g + b - max3(r, g, b) - min3(r, g, b)
}

/// One sixth of the wheel. The hue `h` is `60 * UNIT * part / delta` cut down
/// to a whole number, where `part / delta` counts sixths: `base` degrees and
/// then, if `up`, the share `excess / delta` of one more sixth, or else that
/// share of a sixth back from `base`. Then `h` lies in that sixth, and the
/// share of the chroma that it gives the middle channel is `excess / delta`
/// but for what was cut off.
proof fn lemma_sixth(h: int, part: int, delta: int, base: int, excess: int, up: bool)
    requires
        0 < delta,
        h == 60 * UNIT * part / delta,
        0 <= excess <= delta,
        up ==> (base == 0 || base == 120 * UNIT || base == 240 * UNIT) && 60 * UNIT * part == base
            * delta + 60 * UNIT * excess,
        !up ==> (base == 120 * UNIT || base == 240 * UNIT || base == 360 * UNIT) && 60 * UNIT
            * part == base * delta - 60 * UNIT * excess,
    ensures
        -delta <= hue_share(h) * delta - 60 * UNIT * excess <= delta,
        up ==> base <= h <= base + 60 * UNIT && (excess < delta ==> h < base + 60 * UNIT),
        !up ==> base - 60 * UNIT <= h <= base && (excess > 0 ==> h < base),
{
    lemma_quotient_brackets(60 * UNIT * part, delta);
    assert(up ==> base <= h <= base + 60 * UNIT && (excess < delta ==> h < base + 60 * UNIT))
        by (nonlinear_arith)
        requires
            0 < delta,
            0 <= excess <= delta,
            h * delta <= 60 * UNIT * part < h * delta + delta,
            up ==> 60 * UNIT * part == base * delta + 60 * UNIT * excess,
    ;
    assert(!up ==> base - 60 * UNIT <= h <= base && (excess > 0 ==> h < base))
        by (nonlinear_arith)
        requires
            0 < delta,
            0 <= excess <= delta,
            h * delta <= 60 * UNIT * part < h * delta + delta,
            !up ==> 60 * UNIT * part == base * delta - 60 * UNIT * excess,
    ;
    let share = hue_share(h);
    assert(share == if up {
        h - base
    } else {
        base - h
    });
    assert(-delta <= share * delta - 60 * UNIT * excess <= delta) by (nonlinear_arith)
        requires
            0 < delta,
            h * delta <= 60 * UNIT * part < h * delta + delta,
            up ==> share == h - base && 60 * UNIT * part == base * delta + 60 * UNIT * excess,
            !up ==> share == base - h && 60 * UNIT * part == base * delta - 60 * UNIT * excess,
    ;
}

/// What the hue of a colour says of its channels: it is less than 360, and
/// the share of the chroma that it gives the middle channel is what that
/// channel has over the weakest one, as a part of what the strongest one has,
/// but for less than a trillionth of a degree.
pub open spec fn hue_tells(r: int, g: int, b: int) -> bool {
    let h = hue_of(r, g, b);
    let delta = max3(r, g, b) - min3(r, g, b);
    &&& 0 <= h < 360 * UNIT
    &&& 0 <= hue_share(h) <= 60 * UNIT
    &&& -delta <= hue_share(h) * delta - 60 * UNIT * (median3(r, g, b) - min3(r, g, b)) <= delta
}

/// Whether three levels, laid out as the hue of a colour asks, are near its
/// red, green and blue.
pub open spec fn hue_places(r: int, g: int, b: int, levels: (int, int, int), slack: int) -> bool {
    near_rgb(arrange(sector(hue_of(r, g, b)), levels.0, levels.1, levels.2), (r, g, b), slack)
}

/// Whether three levels are near the strongest, the middle and the weakest
/// channel of a colour.
pub open spec fn levels_near(r: int, g: int, b: int, levels: (int, int, int), slack: int) -> bool {
    &&& near(levels.0, max3(r, g, b), slack)
    &&& near(levels.1, median3(r, g, b), slack)
    &&& near(levels.2, min3(r, g, b), slack)
}

/// A grey has hue 0, which asks for nothing.
proof fn lemma_hue_tells_grey(v: int, levels: (int, int, int), slack: int)
    requires
        is_rgb((v, v, v)),
    ensures
        hue_tells(v, v, v),
        levels_near(v, v, v, levels, slack) ==> hue_places(v, v, v, levels, slack),
{
    assert(hue_share(0) * 0 == 0) by (nonlinear_arith);
}

/// The hue of a colour whose strongest channel is red.
proof fn lemma_hue_tells_red(r: int, g: int, b: int, levels: (int, int, int), slack: int)
    requires
        is_rgb((r, g, b)),
        r >= g,
        r >= b,
        g != r || b != r,
    ensures
        hue_tells(r, g, b),
        levels_near(r, g, b, levels, slack) ==> hue_places(r, g, b, levels, slack),
{
    let delta = r - min3(r, g, b);
    let h = hue_of(r, g, b);
    if g >= b {
        lemma_sixth(h, g - b, delta, 0, g - b, true);
    } else {
        lemma_sixth(h, g - b + 6 * delta, delta, 360 * UNIT, b - g, false);
    }
}

/// The hue of a colour whose strongest channel is green, and not red.
proof fn lemma_hue_tells_green(r: int, g: int, b: int, levels: (int, int, int), slack: int)
    requires
        is_rgb((r, g, b)),
        g > r,
        g >= b,
    ensures
        hue_tells(r, g, b),
        levels_near(r, g, b, levels, slack) ==> hue_places(r, g, b, levels, slack),
{
    let delta = g - min3(r, g, b);
    let h = hue_of(r, g, b);
    if b >= r {
        lemma_sixth(h, b - r + 2 * delta, delta, 120 * UNIT, b - r, true);
    } else {
        lemma_sixth(h, b - r + 2 * delta, delta, 120 * UNIT, r - b, false);
    }
}

/// The hue of a colour whose strongest channel is blue alone.
proof fn lemma_hue_tells_blue(r: int, g: int, b: int, levels: (int, int, int), slack: int)
    requires
        is_rgb((r, g, b)),
        b > r,
        b > g,
    ensures
        hue_tells(r, g, b),
        levels_near(r, g, b, levels, slack) ==> hue_places(r, g, b, levels, slack),
{
    let delta = b - min3(r, g, b);
    let h = hue_of(r, g, b);
    if r >= g {
        lemma_sixth(h, r - g + 4 * delta, delta, 240 * UNIT, r - g, true);
    } else {
        lemma_sixth(h, r - g + 4 * delta, delta, 240 * UNIT, g - r, false);
    }
}

/// **The hue of an RGB colour tells its channels apart.** It says where
/// between the weakest and the strongest channel the third one lies, and
/// three levels that are near the strongest, the middle and the weakest
/// channel come out near red, green and blue when they are laid out as the
/// hue asks.
pub proof fn lemma_hue_tells(r: int, g: int, b: int, levels: (int, int, int), slack: int)
    requires
        is_rgb((r, g, b)),
    ensures
        hue_tells(r, g, b),
        levels_near(r, g, b, levels, slack) ==> hue_places(r, g, b, levels, slack),
{
    if r == g && g == b {
        lemma_hue_tells_grey(r, levels, slack);
    } else if r >= g && r >= b {
        lemma_hue_tells_red(r, g, b, levels, slack);
    } else if g >= b {
        lemma_hue_tells_green(r, g, b, levels, slack);
    } else {
        lemma_hue_tells_blue(r, g, b, levels, slack);
    }
}

} // verus!

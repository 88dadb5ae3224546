//! How the three levels that a hue, a chroma and an offset are laid out as
//! give the hue back.

use vstd::prelude::*;
use crate::arith::{lemma_quotient_between, lemma_quotient_brackets};
use crate::bounds::lemma_spread_in_range;
use crate::from_rgb::hue_of;
use crate::helper::{max3, min3};
use crate::num::{UNIT, UNIT_SQUARED};
use crate::to_rgb::{hue_share, level_high, level_low, level_mid, sector, spread_spec, LEVEL};
use crate::wheel::near;

verus! {

/// The most, in trillionths of a degree, that a hue can be off when it comes
/// back from RGB: the one trillionth that rounding down can cost.
pub open spec fn hue_slack() -> int {
    1
}

/// What the levels of a colour are to each other: the strongest one lies
/// the chroma above the weakest, exactly, and the middle one lies the
/// chroma's share above the weakest, but for less than a step.
pub open spec fn levels_fit(h: int, offset: int, chroma: int, high: int, mid: int, low: int)
    -> bool {
    let share = hue_share(h);
    &&& high == level_high(offset, chroma)
    &&& mid == level_mid(offset, chroma, h)
    &&& low == level_low(offset)
    &&& 0 <= low <= mid <= high
    &&& 0 <= chroma
    &&& 0 <= share <= 60 * UNIT
    &&& high - low == 2 * LEVEL * chroma
    &&& 32 * (mid - low) <= 34 * (chroma * share) < 32 * (mid - low) + 32
}

/// The levels of a colour fit each other.
pub proof fn lemma_levels_fit(h: int, offset: int, chroma: int)
    requires
        0 <= h <= 360 * UNIT,
        0 <= offset,
        0 <= chroma,
        offset + 2 * chroma <= 2 * UNIT_SQUARED,
    ensures
        levels_fit(
            h,
            offset,
            chroma,
            level_high(offset, chroma),
            level_mid(offset, chroma, h),
            level_low(offset),
        ),
        ({
            let (r, g, b) = spread_spec(offset, chroma, h);
            max3(r, g, b) == level_high(offset, chroma) && min3(r, g, b) == level_low(offset)
        }),
{
    let share = hue_share(h);
    lemma_spread_in_range(offset, chroma, h);
    let sum = 60 * UNIT * offset + 2 * chroma * share;
    lemma_quotient_brackets(17 * sum, 32);
    assert(2 * chroma * share == 2 * (chroma * share)) by (nonlinear_arith);
}

/// The hue comes back from the levels. `turn` is what the weakest and the
/// middle level give for the position within a sixth of the wheel: `60 * UNIT
/// * (mid - low) / delta` cut down to a whole number if `up`, where the hue
/// is counted up from the start of the sixth, and else the same of `-(mid -
/// low)`, where it is counted back from the end. Counted back it is the
/// share that the levels were made with; counted up it may be one less.
proof fn lemma_turn_from_levels(chroma: int, share: int, delta: int, rise: int, turn: int, up: bool)
    by (nonlinear_arith)
    requires
        0 < chroma,
        0 <= share <= 60 * UNIT,
        delta == 2 * LEVEL * chroma,
        32 * rise <= 34 * (chroma * share) < 32 * rise + 32,
        up ==> turn * delta <= 60 * UNIT * rise < turn * delta + delta,
        !up ==> turn * delta <= -(60 * UNIT * rise) < turn * delta + delta,
    ensures
        up ==> share - 1 <= turn <= share,
        !up ==> turn == -share,
{
}

/// The position within a sixth of the wheel that a hue `h2` read from RGB
/// stands for: `h2` is `60 * UNIT * part / delta` cut down to a whole number,
/// and `part` is `base` degrees and `x / delta` of a sixth more, or less.
proof fn lemma_turn_of_hue(h2: int, part: int, delta: int, base: int, x: int, up: bool)
    by (nonlinear_arith)
    requires
        0 < delta,
        h2 == 60 * UNIT * part / delta,
        up ==> 60 * UNIT * part == base * delta + 60 * UNIT * x,
        !up ==> 60 * UNIT * part == base * delta - 60 * UNIT * x,
    ensures
        up ==> (h2 - base) * delta <= 60 * UNIT * x < (h2 - base) * delta + delta,
        !up ==> (h2 - base) * delta <= -(60 * UNIT * x) < (h2 - base) * delta + delta,
{
    lemma_quotient_brackets(60 * UNIT * part, delta);
}

/// Where the middle level has reached the strongest one, the share is all of the chroma.
proof fn lemma_full_share(chroma: int, share: int, rise: int)
    by (nonlinear_arith)
    requires
        0 < chroma,
        0 <= share <= 60 * UNIT,
        rise == 2 * LEVEL * chroma,
        32 * rise <= 34 * (chroma * share),
    ensures
        share == 60 * UNIT,
{
}

/// Where the middle level has stayed at the weakest one, the share is none of the chroma.
proof fn lemma_no_share(chroma: int, share: int)
    by (nonlinear_arith)
    requires
        0 < chroma,
        0 <= share,
        34 * (chroma * share) < 32,
    ensures
        share == 0,
{
}

/// A hue in the first sixth of the wheel comes back: red is strongest and blue weakest.
proof fn lemma_hue_survives_sector_0(h: int, offset: int, chroma: int, high: int, mid: int, low: int)
    requires
        levels_fit(h, offset, chroma, high, mid, low),
        chroma > 0,
        0 <= h < 60 * UNIT,
    ensures
        near(hue_of(high, mid, low), h, hue_slack()),
{
    let delta = high - low;
    let h2 = hue_of(high, mid, low);
    lemma_turn_of_hue(h2, mid - low, delta, 0, mid - low, true);
    lemma_turn_from_levels(chroma, hue_share(h), delta, mid - low, h2, true);
}

/// A hue in the second sixth comes back: green is strongest and blue weakest.
proof fn lemma_hue_survives_sector_1(h: int, offset: int, chroma: int, high: int, mid: int, low: int)
    requires
        levels_fit(h, offset, chroma, high, mid, low),
        chroma > 0,
        60 * UNIT <= h < 120 * UNIT,
    ensures
        near(hue_of(mid, high, low), h, hue_slack()),
{
    let delta = high - low;
    let h2 = hue_of(mid, high, low);
    if mid == high {
        lemma_full_share(chroma, hue_share(h), mid - low);
        lemma_quotient_between(60 * UNIT * delta, delta, 60 * UNIT, 60 * UNIT);
    } else {
        lemma_turn_of_hue(h2, low - mid + 2 * delta, delta, 120 * UNIT, mid - low, false);
        lemma_turn_from_levels(chroma, hue_share(h), delta, mid - low, h2 - 120 * UNIT, false);
    }
}

/// A hue in the third sixth comes back: green is strongest and red weakest.
proof fn lemma_hue_survives_sector_2(h: int, offset: int, chroma: int, high: int, mid: int, low: int)
    requires
        levels_fit(h, offset, chroma, high, mid, low),
        chroma > 0,
        120 * UNIT <= h < 180 * UNIT,
    ensures
        near(hue_of(low, high, mid), h, hue_slack()),
{
    let delta = high - low;
    let h2 = hue_of(low, high, mid);
    lemma_turn_of_hue(h2, mid - low + 2 * delta, delta, 120 * UNIT, mid - low, true);
    lemma_turn_from_levels(
        chroma,
        hue_share(h),
        delta,
        mid - low,
        h2 - 120 * UNIT,
        true,
    );
}

/// A hue in the fourth sixth comes back: blue is strongest and red weakest.
proof fn lemma_hue_survives_sector_3(h: int, offset: int, chroma: int, high: int, mid: int, low: int)
    requires
        levels_fit(h, offset, chroma, high, mid, low),
        chroma > 0,
        180 * UNIT <= h < 240 * UNIT,
    ensures
        near(hue_of(low, mid, high), h, hue_slack()),
{
    let delta = high - low;
    let h2 = hue_of(low, mid, high);
    if mid == high {
        lemma_full_share(chroma, hue_share(h), mid - low);
        lemma_quotient_between(60 * UNIT * (3 * delta), delta, 180 * UNIT, 180 * UNIT);
    } else {
        lemma_turn_of_hue(h2, low - mid + 4 * delta, delta, 240 * UNIT, mid - low, false);
        lemma_turn_from_levels(chroma, hue_share(h), delta, mid - low, h2 - 240 * UNIT, false);
    }
}

/// A hue in the fifth sixth comes back: blue is strongest and green weakest.
proof fn lemma_hue_survives_sector_4(h: int, offset: int, chroma: int, high: int, mid: int, low: int)
    requires
        levels_fit(h, offset, chroma, high, mid, low),
        chroma > 0,
        240 * UNIT <= h < 300 * UNIT,
    ensures
        near(hue_of(mid, low, high), h, hue_slack()),
{
    let delta = high - low;
    let h2 = hue_of(mid, low, high);
    if mid == high {
        lemma_full_share(chroma, hue_share(h), mid - low);
    } else {
        lemma_turn_of_hue(h2, mid - low + 4 * delta, delta, 240 * UNIT, mid - low, true);
        lemma_turn_from_levels(chroma, hue_share(h), delta, mid - low, h2 - 240 * UNIT, true);
    }
}

/// A hue in the last sixth, short of 360, comes back: red is strongest and
/// green weakest.
proof fn lemma_hue_survives_sector_5(h: int, offset: int, chroma: int, high: int, mid: int, low: int)
    requires
        levels_fit(h, offset, chroma, high, mid, low),
        chroma > 0,
        300 * UNIT <= h < 360 * UNIT,
    ensures
        near(hue_of(high, low, mid), h, hue_slack()),
{
    let delta = high - low;
    let h2 = hue_of(high, low, mid);
    if mid == low {
        lemma_no_share(chroma, hue_share(h));
    } else {
        lemma_turn_of_hue(h2, low - mid + 6 * delta, delta, 360 * UNIT, mid - low, false);
        lemma_turn_from_levels(chroma, hue_share(h), delta, mid - low, h2 - 360 * UNIT, false);
    }
}

/// **A hue comes back from the levels that it was laid out as**, to within a
/// trillionth of a degree, as a number, where there is chroma and the hue is
/// less than 360. Without chroma the three levels are one grey, and a hue
/// of 360 names the colour that 0 names: both read as 0.
pub proof fn lemma_hue_from_levels(h: int, offset: int, chroma: int)
    requires
        0 <= h < 360 * UNIT,
        0 <= offset,
        0 < chroma,
        offset + 2 * chroma <= 2 * UNIT_SQUARED,
    ensures
        ({
            let (r, g, b) = spread_spec(offset, chroma, h);
            near(hue_of(r, g, b), h, hue_slack())
        }),
{
    let high = level_high(offset, chroma);
    let mid = level_mid(offset, chroma, h);
    let low = level_low(offset);
    lemma_levels_fit(h, offset, chroma);
    let k = sector(h);
    if k == 0 {
        lemma_hue_survives_sector_0(h, offset, chroma, high, mid, low);
    } else if k == 1 {
        lemma_hue_survives_sector_1(h, offset, chroma, high, mid, low);
    } else if k == 2 {
        lemma_hue_survives_sector_2(h, offset, chroma, high, mid, low);
    } else if k == 3 {
        lemma_hue_survives_sector_3(h, offset, chroma, high, mid, low);
    } else if k == 4 {
        lemma_hue_survives_sector_4(h, offset, chroma, high, mid, low);
    } else {
        lemma_hue_survives_sector_5(h, offset, chroma, high, mid, low);
    }
}

} // verus!

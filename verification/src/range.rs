//! The ranges that colour components and channels are held to.

use vstd::prelude::*;
use crate::num::{Component, NumType, STEPS, UNIT};

verus! {

/// A red, green or blue channel, in steps: between 0 and 255.
pub open spec fn is_channel(x: int) -> bool {
    0 <= x <= 255 * STEPS
}

/// A hue in degrees, in trillionths: between 0 and 360. A hue of 360 names
/// the same colour as a hue of 0.
pub open spec fn is_hue(x: int) -> bool {
    0 <= x <= 360 * UNIT
}

/// A saturation, lightness, value, ink share or alpha, in trillionths: between 0 and 1.
pub open spec fn is_ratio(x: int) -> bool {
    0 <= x <= UNIT
}

/// Whether `x` is a channel.
pub fn channel_in_range(x: NumType) -> (ok: bool)
    ensures
        ok == is_channel(x@),
{
    0 <= x.steps && x.steps <= 255 * STEPS
}

/// Whether `x` is a hue.
pub fn hue_in_range(x: Component) -> (ok: bool)
    ensures
        ok == is_hue(x@),
{
    0 <= x.trillionths && x.trillionths <= 360 * UNIT
}

/// Whether `x` is a ratio.
pub fn ratio_in_range(x: Component) -> (ok: bool)
    ensures
        ok == is_ratio(x@),
{
    0 <= x.trillionths && x.trillionths <= UNIT
}

} // verus!

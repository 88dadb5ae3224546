//! A foreground over a background, and the blend that makes one colour of the two.

use vstd::prelude::*;
use crate::arith::{lemma_product_bound, lemma_quotient_between, lemma_quotient_bound};
use crate::num::{Component, NumType, UNIT};
use crate::range::{is_channel, is_ratio};

verus! {

/// One channel of a blend: `(front * alpha + back) / 2`, rounded down to a whole step.
pub open spec fn blend_of(front: int, back: int, alpha: int) -> int {
    (front * alpha + back * UNIT) / (2 * UNIT)
}

/// The blend of two RGB colours, channel by channel.
pub open spec fn blend_spec(front: (int, int, int), back: (int, int, int), alpha: int) -> (
    int,
    int,
    int,
) {
    (
        blend_of(front.0, back.0, alpha),
        blend_of(front.1, back.1, alpha),
        blend_of(front.2, back.2, alpha),
    )
}

/// Whether all three numbers are channels.
pub open spec fn is_rgb(rgb: (int, int, int)) -> bool {
    is_channel(rgb.0) && is_channel(rgb.1) && is_channel(rgb.2)
}

/// The views of three numbers.
pub open spec fn views(t: (NumType, NumType, NumType)) -> (int, int, int) {
    (t.0@, t.1@, t.2@)
}

/// The views of three components.
pub open spec fn parts(t: (Component, Component, Component)) -> (int, int, int) {
    (t.0@, t.1@, t.2@)
}

/// A blend of channels is a channel.
pub proof fn lemma_blend_is_channel(front: int, back: int, alpha: int)
    requires
        is_channel(front),
        is_channel(back),
        is_ratio(alpha),
    ensures
        is_channel(blend_of(front, back, alpha)),
{
    lemma_product_bound(front, alpha, front, UNIT as int);
    lemma_quotient_bound(front * alpha + back * UNIT, 2 * UNIT, front + back);
}

/// Blends one channel.
fn blend_channel(front: NumType, back: NumType, alpha: Component) -> (mix: NumType)
    requires
        is_channel(front@),
        is_channel(back@),
        is_ratio(alpha@),
    ensures
        mix@ == blend_of(front@, back@, alpha@),
        is_channel(mix@),
{
    let f: u128 = front.steps as u128;
    let b: u128 = back.steps as u128;
    let a: u128 = alpha.trillionths as u128;
    let whole: u128 = f / 1_000_000_000_000;
    let rest: u128 = f % 1_000_000_000_000;
    proof {
        lemma_product_bound(whole as int, a as int, whole as int, UNIT as int);
        lemma_product_bound(rest as int, a as int, UNIT as int, UNIT as int);
        lemma_blend_is_channel(front@, back@, alpha@);
    }
    let low: u128 = rest * a;
    let weighted: u128 = whole * a + low / 1_000_000_000_000;
    let mix: u128 = (weighted + b) / 2;
    proof {
        let left = low % 1_000_000_000_000;
        assert(f * a + b * UNIT == (weighted + b) * UNIT + left) by (nonlinear_arith)
            requires
                f == whole * UNIT + rest,
                low == rest * a,
                weighted == whole * a + low / (UNIT as u128),
                left == low % (UNIT as u128),
                low == (low / (UNIT as u128)) * UNIT + left,
        ;
        assert(mix * (2 * UNIT) <= f * a + b * UNIT < (mix + 1) * (2 * UNIT)) by (nonlinear_arith)
            requires
                f * a + b * UNIT == (weighted + b) * UNIT + left,
                0 <= left < UNIT,
                mix * 2 <= weighted + b < mix * 2 + 2,
        ;
        lemma_quotient_between(f * a + b * UNIT, 2 * UNIT, mix as int, mix as int);
    }
    NumType { steps: mix as i128 }
}

/// Blends `front` into `back`: each channel is `(front * alpha + back) / 2`.
pub fn blend(
    front: (NumType, NumType, NumType),
    back: (NumType, NumType, NumType),
    alpha: Component,
) -> (mix: (NumType, NumType, NumType))
    requires
        is_rgb(views(front)),
        is_rgb(views(back)),
        is_ratio(alpha@),
    ensures
        views(mix) == blend_spec(views(front), views(back), alpha@),
        is_rgb(views(mix)),
{
    (
        blend_channel(front.0, back.0, alpha),
        blend_channel(front.1, back.1, alpha),
        blend_channel(front.2, back.2, alpha),
    )
}

/// A foreground colour, a background colour and the alpha that the foreground
/// is laid on with, all three free to be set.
#[allow(clippy::upper_case_acronyms)]
#[derive(Clone, Copy, Debug, PartialEq, Eq)]
pub struct RGBA {
    pub foreground: (NumType, NumType, NumType),
    pub background: (NumType, NumType, NumType),
    pub alpha: Component,
}

impl RGBA {
    /// Whether both colours are RGB colours and the alpha lies between 0 and 1.
    pub open spec fn valid(self) -> bool {
        is_rgb(views(self.foreground)) && is_rgb(views(self.background)) && is_ratio(self.alpha@)
    }

    /// The single colour that the composite blends down to.
    pub open spec fn blended(self) -> (int, int, int) {
        blend_spec(views(self.foreground), views(self.background), self.alpha@)
    }

    pub fn new(
        foreground: (NumType, NumType, NumType),
        background: (NumType, NumType, NumType),
        alpha: Component,
    ) -> (rgba: Self)
        ensures
            rgba == (RGBA { foreground, background, alpha }),
    {
        Self { foreground, background, alpha }
    }

    pub fn change_alpha(&mut self, alpha: Component)
        ensures
            *final(self) == (RGBA { alpha, ..*old(self) }),
    {
        self.alpha = alpha;
    }

    pub fn change_foreground(&mut self, foreground: (NumType, NumType, NumType))
        ensures
            *final(self) == (RGBA { foreground, ..*old(self) }),
    {
        self.foreground = foreground
    }

    pub fn change_background(&mut self, background: (NumType, NumType, NumType))
        ensures
            *final(self) == (RGBA { background, ..*old(self) }),
    {
        self.background = background
    }

    /// Blends the composite down to one RGB colour.
    pub fn to_rgb(&self) -> (rgb: (NumType, NumType, NumType))
        requires
            self.valid(),
        ensures
            views(rgb) == self.blended(),
            is_rgb(views(rgb)),
    {
        blend(self.foreground, self.background, self.alpha)
    }
}

} // verus!

//! What a colour holds, as a mathematical value, and what converting and
//! projecting make of it.

use vstd::prelude::*;
use crate::bounds::{
    lemma_cmyk_to_rgb_in_range, lemma_hsl_to_rgb_in_range, lemma_hsv_to_rgb_in_range,
    lemma_rgb_to_cmyk_in_range, lemma_rgb_to_hsl_in_range, lemma_rgb_to_hsv_in_range,
};
use crate::from_rgb::{rgb_to_cmyk_spec, rgb_to_hsl_spec, rgb_to_hsv_spec};
use crate::num::GRAIN;
use crate::range::{is_hue, is_ratio};
use crate::rgba::{blend_spec, is_rgb, lemma_blend_is_channel};
use crate::standard::ColorStandered;
use crate::to_rgb::{cmyk_to_rgb_spec, hsl_to_rgb_spec, hsv_to_rgb_spec};

verus! {

/// What a colour holds: nothing, or one tuple in one standard. Channels are
/// counts of steps, components counts of trillionths.
pub enum Stored {
    Nothing,
    Rgb(int, int, int),
    Hsl(int, int, int),
    Hsv(int, int, int),
    Cmyk(int, int, int, int),
    /// Foreground, background and alpha.
    Rgba((int, int, int), (int, int, int), int),
}

/// The tuple that stands for no value.
pub open spec fn no_tuple() -> (int, int, int, Option<int>) {
    (0, 0, 0, None)
}

impl Stored {
    /// The standard that the tuple is in.
    pub open spec fn standard(self) -> ColorStandered {
        match self {
            Stored::Nothing => ColorStandered::Unset,
            Stored::Rgb(..) => ColorStandered::Rgb,
            Stored::Hsl(..) => ColorStandered::Hsl,
            Stored::Hsv(..) => ColorStandered::Hsv,
            Stored::Cmyk(..) => ColorStandered::Cmyk,
            Stored::Rgba(..) => ColorStandered::Rgba,
        }
    }

    /// Whether every number lies in the range of its component.
    pub open spec fn valid(self) -> bool {
        match self {
            Stored::Nothing => true,
            Stored::Rgb(r, g, b) => is_rgb((r, g, b)),
            Stored::Hsl(h, s, l) => is_hue(h) && is_ratio(s) && is_ratio(l),
            Stored::Hsv(h, s, v) => is_hue(h) && is_ratio(s) && is_ratio(v),
            Stored::Cmyk(c, m, y, k) => is_ratio(c) && is_ratio(m) && is_ratio(y) && is_ratio(k),
            Stored::Rgba(front, back, alpha) => is_rgb(front) && is_rgb(back) && is_ratio(alpha),
        }
    }

    /// The colour in RGB, the hub that every conversion goes through. A
    /// foreground over a background blends down to one colour; nothing counts
    /// as black.
    pub open spec fn rgb(self) -> (int, int, int) {
        match self {
            Stored::Nothing => (0, 0, 0),
            Stored::Rgb(r, g, b) => (r, g, b),
            Stored::Hsl(h, s, l) => hsl_to_rgb_spec(h, s, l),
            Stored::Hsv(h, s, v) => hsv_to_rgb_spec(h, s, v),
            Stored::Cmyk(c, m, y, k) => cmyk_to_rgb_spec(c, m, y, k),
            Stored::Rgba(front, back, alpha) => blend_spec(front, back, alpha),
        }
    }

    /// Whether converting to `target` changes what is held: there must be
    /// something to convert, and the target must be another one of RGB, HSL,
    /// HSV and CMYK.
    pub open spec fn converts_to(self, target: ColorStandered) -> bool {
        &&& self != Stored::Nothing
        &&& target != self.standard()
        &&& target != ColorStandered::Unset
        &&& target != ColorStandered::Rgba
    }

    /// What is held after a conversion to `target`: the same colour in the
    /// target standard, reached through RGB, and nothing of the old tuple.
    pub open spec fn convert(self, target: ColorStandered) -> Stored {
        if !self.converts_to(target) {
            self
        } else {
            let (r, g, b) = self.rgb();
            match target {
                ColorStandered::Hsl => {
                    let (h, s, l) = rgb_to_hsl_spec(r, g, b);
                    Stored::Hsl(h, s, l)
                },
                ColorStandered::Hsv => {
                    let (h, s, v) = rgb_to_hsv_spec(r, g, b);
                    Stored::Hsv(h, s, v)
                },
                ColorStandered::Cmyk => {
                    let (c, m, y, k) = rgb_to_cmyk_spec(r, g, b);
                    Stored::Cmyk(c, m, y, k)
                },
                _ => Stored::Rgb(r, g, b),
            }
        }
    }

    /// The tuple as four numbers, the fourth one there for CMYK only, each
    /// counted in steps. A foreground over a background shows as its blend.
    pub open spec fn tuple(self) -> (int, int, int, Option<int>) {
        match self {
            Stored::Nothing => no_tuple(),
            Stored::Rgb(r, g, b) => (r, g, b, None),
            Stored::Hsl(h, s, l) => (h * GRAIN, s * GRAIN, l * GRAIN, None),
            Stored::Hsv(h, s, v) => (h * GRAIN, s * GRAIN, v * GRAIN, None),
            Stored::Cmyk(c, m, y, k) => (c * GRAIN, m * GRAIN, y * GRAIN, Some(k * GRAIN)),
            Stored::Rgba(front, back, alpha) => {
                let (r, g, b) = blend_spec(front, back, alpha);
                (r, g, b, None)
            },
        }
    }

    /// The tuple that the colour has in `target`, which is the tuple held where
    /// `target` is the colour's own standard. No tuple comes out for no target,
    /// nor for a target that nothing converts into.
    pub open spec fn project(self, target: ColorStandered) -> (int, int, int, Option<int>) {
        if target == ColorStandered::Unset {
            no_tuple()
        } else if target == ColorStandered::Rgba && self.standard() != ColorStandered::Rgba {
            no_tuple()
        } else {
            self.convert(target).tuple()
        }
    }
}

/// What is held in range comes out of the hub as three channels.
pub proof fn lemma_rgb_in_range(held: Stored)
    requires
        held.valid(),
    ensures
        is_rgb(held.rgb()),
{
    match held {
        Stored::Nothing => {},
        Stored::Rgb(..) => {},
        Stored::Hsl(h, s, l) => lemma_hsl_to_rgb_in_range(h, s, l),
        Stored::Hsv(h, s, v) => lemma_hsv_to_rgb_in_range(h, s, v),
        Stored::Cmyk(c, m, y, k) => lemma_cmyk_to_rgb_in_range(c, m, y, k),
        Stored::Rgba(front, back, alpha) => {
            lemma_blend_is_channel(front.0, back.0, alpha);
            lemma_blend_is_channel(front.1, back.1, alpha);
            lemma_blend_is_channel(front.2, back.2, alpha);
        },
    }
}

/// A conversion keeps every number in the range of its component: what is
/// checked when a colour is made need not be checked again.
pub proof fn lemma_convert_keeps_valid(held: Stored, target: ColorStandered)
    requires
        held.valid(),
    ensures
        held.convert(target).valid(),
{
    lemma_rgb_in_range(held);
    let (r, g, b) = held.rgb();
    lemma_rgb_to_hsl_in_range(r, g, b);
    lemma_rgb_to_hsv_in_range(r, g, b);
    lemma_rgb_to_cmyk_in_range(r, g, b);
}

/// After a conversion that has something to convert, the colour is held in
/// the target standard and in no other.
pub proof fn lemma_convert_reaches_target(held: Stored, target: ColorStandered)
    ensures
        held.converts_to(target) ==> held.convert(target).standard() == target,
        !held.converts_to(target) ==> held.convert(target) == held,
{
}

/// Converting twice to the same standard is converting once.
pub proof fn lemma_convert_twice(held: Stored, target: ColorStandered)
    ensures
        held.convert(target).convert(target) == held.convert(target),
{
}

/// A projection shows the tuple that a conversion to the same target would
/// leave in the colour, for every target that can be converted to.
pub proof fn lemma_project_is_convert(held: Stored, target: ColorStandered)
    requires
        target != ColorStandered::Unset,
        target != ColorStandered::Rgba,
    ensures
        held.project(target) == held.convert(target).tuple(),
{
}

/// The projection to RGB is the hub value, for every colour.
pub proof fn lemma_project_rgb_is_hub(held: Stored)
    ensures
        held.project(ColorStandered::Rgb) == (held.rgb().0, held.rgb().1, held.rgb().2, None::<int>),
{
}

} // verus!

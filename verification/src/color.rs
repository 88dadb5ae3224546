//! The colour value: one tuple in one standard, converted on demand.

use vstd::prelude::*;
use crate::ansi::{render, render_text};
use crate::error::Exeptions;
use crate::from_rgb::{rgb_to_cmyk, rgb_to_hsl, rgb_to_hsv};
use crate::hex::{has_hex_length, hex_colour, read_hex};
use crate::num::{Component, NumType, STEPS};
use crate::rgba::{blend, blend_spec, is_rgb, views, RGBA};
use crate::standard::ColorStandered;
use crate::stored::Stored;
use crate::to_rgb::{cmyk_to_rgb, hsl_to_rgb, hsv_to_rgb};
use crate::validate::{
    alpha_fault, check_alpha, check_cmyk, check_hsl, check_hsv, check_rgb, cmyk_fault, hsl_fault,
    hsv_fault, rgb_fault, rgba_fault,
};

verus! {

/// A colour. It holds one tuple, in the standard that it was made in or was
/// last converted to, in the slot of that standard; the other slots are empty.
/// Its view is what it holds, as a [`Stored`].
#[derive(Clone, Copy, Debug, PartialEq)]
pub struct Color {
    rgb: Option<(NumType, NumType, NumType)>,
    cmyk: Option<(Component, Component, Component, Component)>,
    hsl: Option<(Component, Component, Component)>,
    hsv: Option<(Component, Component, Component)>,
    rgba: Option<RGBA>,
    kind: ColorStandered,
}

/// The views of the four numbers of an exposed tuple.
pub open spec fn views4(t: (NumType, NumType, NumType, Option<NumType>)) -> (
    int,
    int,
    int,
    Option<int>,
) {
    (
        t.0@,
        t.1@,
        t.2@,
        match t.3 {
            Some(k) => Some(k@),
            None => None,
        },
    )
}

impl View for Color {
    type V = Stored;

    closed spec fn view(&self) -> Stored {
        match self.kind {
            ColorStandered::Unset => Stored::Nothing,
            ColorStandered::Rgb => match self.rgb {
                Some(t) => Stored::Rgb(t.0@, t.1@, t.2@),
                None => Stored::Nothing,
            },
            ColorStandered::Hsl => match self.hsl {
                Some(t) => Stored::Hsl(t.0@, t.1@, t.2@),
                None => Stored::Nothing,
            },
            ColorStandered::Hsv => match self.hsv {
                Some(t) => Stored::Hsv(t.0@, t.1@, t.2@),
                None => Stored::Nothing,
            },
            ColorStandered::Cmyk => match self.cmyk {
                Some(t) => Stored::Cmyk(t.0@, t.1@, t.2@, t.3@),
                None => Stored::Nothing,
            },
            ColorStandered::Rgba => match self.rgba {
                Some(c) => Stored::Rgba(views(c.foreground), views(c.background), c.alpha@),
                None => Stored::Nothing,
            },
        }
    }
}

impl Color {
    /// What holds of every colour: the slot of its standard is filled, with
    /// numbers in range, and no other slot is.
    #[verifier::type_invariant]
    pub closed spec fn well_formed(&self) -> bool {
        &&& self.rgb is Some <==> self.kind == ColorStandered::Rgb
        &&& self.hsl is Some <==> self.kind == ColorStandered::Hsl
        &&& self.hsv is Some <==> self.kind == ColorStandered::Hsv
        &&& self.cmyk is Some <==> self.kind == ColorStandered::Cmyk
        &&& self.rgba is Some <==> self.kind == ColorStandered::Rgba
        &&& self@.valid()
    }

    /// Every colour holds numbers that lie in the ranges of their components.
    pub proof fn lemma_holds_valid(&self)
        requires
            self.well_formed(),
        ensures
            self@.valid(),
    {
    }

    /// A colour with all slots empty.
    fn empty() -> (color: Self)
        ensures
            color@ == Stored::Nothing,
            color.rgb is None,
            color.hsl is None,
            color.hsv is None,
            color.cmyk is None,
            color.rgba is None,
            color.kind == ColorStandered::Unset,
    {
        Color { rgb: None, cmyk: None, hsl: None, hsv: None, rgba: None, kind: ColorStandered::Unset }
    }

    /// An RGB colour of numbers that are known to be channels.
    fn of_rgb(rgb: (NumType, NumType, NumType)) -> (color: Self)
        requires
            Stored::Rgb(rgb.0@, rgb.1@, rgb.2@).valid(),
        ensures
            color@ == Stored::Rgb(rgb.0@, rgb.1@, rgb.2@),
    {
        Color {
            rgb: Some(rgb),
            cmyk: None,
            hsl: None,
            hsv: None,
            rgba: None,
            kind: ColorStandered::Rgb,
        }
    }

    /// An HSL colour of numbers that are known to be in range.
    fn of_hsl(hsl: (Component, Component, Component)) -> (color: Self)
        requires
            Stored::Hsl(hsl.0@, hsl.1@, hsl.2@).valid(),
        ensures
            color@ == Stored::Hsl(hsl.0@, hsl.1@, hsl.2@),
    {
        Color {
            rgb: None,
            cmyk: None,
            hsl: Some(hsl),
            hsv: None,
            rgba: None,
            kind: ColorStandered::Hsl,
        }
    }

    /// An HSV colour of numbers that are known to be in range.
    fn of_hsv(hsv: (Component, Component, Component)) -> (color: Self)
        requires
            Stored::Hsv(hsv.0@, hsv.1@, hsv.2@).valid(),
        ensures
            color@ == Stored::Hsv(hsv.0@, hsv.1@, hsv.2@),
    {
        Color {
            rgb: None,
            cmyk: None,
            hsl: None,
            hsv: Some(hsv),
            rgba: None,
            kind: ColorStandered::Hsv,
        }
    }

    /// A CMYK colour of numbers that are known to be in range.
    fn of_cmyk(cmyk: (Component, Component, Component, Component)) -> (color: Self)
        requires
            Stored::Cmyk(cmyk.0@, cmyk.1@, cmyk.2@, cmyk.3@).valid(),
        ensures
            color@ == Stored::Cmyk(cmyk.0@, cmyk.1@, cmyk.2@, cmyk.3@),
    {
        Color {
            rgb: None,
            cmyk: Some(cmyk),
            hsl: None,
            hsv: None,
            rgba: None,
            kind: ColorStandered::Cmyk,
        }
    }

    /// A colour of a foreground laid over a background with `alpha`. Checked
    /// are the foreground's red, green and blue, then the background's, then
    /// the alpha; the first one out of range is the error.
    pub fn from_rgba(
        foreground: (NumType, NumType, NumType),
        background: (NumType, NumType, NumType),
        alpha: Component,
    ) -> (made: Result<Self, Exeptions>)
        ensures
            match made {
                Ok(color) => rgba_fault(foreground, background, alpha) is None && color@
                    == Stored::Rgba(views(foreground), views(background), alpha@),
                Err(e) => rgba_fault(foreground, background, alpha) == Some(e),
            },
    {
        if let Some(e) = check_rgb(foreground.0, foreground.1, foreground.2) {
            return Err(e);
        }
        if let Some(e) = check_rgb(background.0, background.1, background.2) {
            return Err(e);
        }
        if let Some(e) = check_alpha(alpha) {
            return Err(e);
        }
        Ok(
            Color {
                rgb: None,
                cmyk: None,
                hsl: None,
                hsv: None,
                rgba: Some(RGBA { foreground, background, alpha }),
                kind: ColorStandered::Rgba,
            },
        )
    }
}

impl Color {
    /// A colour from red, green and blue: see [`Color::new_rgb`].
    pub fn from_rgb(red: NumType, green: NumType, blue: NumType) -> (made: Result<Self, Exeptions>)
        ensures
            match made {
                Ok(color) => rgb_fault(red, green, blue) is None && color@ == Stored::Rgb(
                    red@,
                    green@,
                    blue@,
                ),
                Err(e) => rgb_fault(red, green, blue) == Some(e),
            },
    {
        Self::new_rgb(red, green, blue)
    }

    /// A colour from red, green and blue: see [`Color::new_rgb`].
    pub fn new(red: NumType, green: NumType, blue: NumType) -> (made: Result<Self, Exeptions>)
        ensures
            match made {
                Ok(color) => rgb_fault(red, green, blue) is None && color@ == Stored::Rgb(
                    red@,
                    green@,
                    blue@,
                ),
                Err(e) => rgb_fault(red, green, blue) == Some(e),
            },
    {
        Self::from_rgb(red, green, blue)
    }

    /// A colour from red, green and blue that the caller has checked.
    pub fn new_unchecked(red: NumType, green: NumType, blue: NumType) -> (color: Self)
        requires
            rgb_fault(red, green, blue) is None,
        ensures
            color@ == Stored::Rgb(red@, green@, blue@),
    {
        Self::of_rgb((red, green, blue))
    }

    /// A colour from hue, saturation and lightness: see [`Color::new_hsl`].
    pub fn from_hsl(hue: Component, sateration: Component, lightness: Component) -> (made: Result<
        Self,
        Exeptions,
    >)
        ensures
            match made {
                Ok(color) => hsl_fault(hue, sateration, lightness) is None && color@ == Stored::Hsl(
                    hue@,
                    sateration@,
                    lightness@,
                ),
                Err(e) => hsl_fault(hue, sateration, lightness) == Some(e),
            },
    {
        Self::new_hsl(hue, sateration, lightness)
    }

    /// A colour from hue, saturation and value: see [`Color::new_hsv`].
    pub fn from_hsv(hue: Component, sateration: Component, value: Component) -> (made: Result<
        Self,
        Exeptions,
    >)
        ensures
            match made {
                Ok(color) => hsv_fault(hue, sateration, value) is None && color@ == Stored::Hsv(
                    hue@,
                    sateration@,
                    value@,
                ),
                Err(e) => hsv_fault(hue, sateration, value) == Some(e),
            },
    {
        Self::new_hsv(hue, sateration, value)
    }

    /// A colour from cyan, magenta, yellow and black: see [`Color::new_cmyk`].
    pub fn from_cmyk(cyan: Component, magenta: Component, yellow: Component, black: Component) -> (made:
        Result<Self, Exeptions>)
        ensures
            match made {
                Ok(color) => cmyk_fault(cyan, magenta, yellow, black) is None && color@
                    == Stored::Cmyk(cyan@, magenta@, yellow@, black@),
                Err(e) => cmyk_fault(cyan, magenta, yellow, black) == Some(e),
            },
    {
        Self::new_cmyk(cyan, magenta, yellow, black)
    }

    /// A colour from hex text: see [`Color::new_hex`].
    pub fn from_hex(value: String) -> (made: Result<Self, Exeptions>)
        ensures
            match made {
                Ok(color) => match hex_colour(value@) {
                    Some((r, g, b)) => color@ == Stored::Rgb(r * STEPS, g * STEPS, b * STEPS),
                    None => false,
                },
                Err(e) => hex_colour(value@) is None && e == (if has_hex_length(value@) {
                    Exeptions::InvalidHex(value)
                } else {
                    Exeptions::IncorrectLength(value@.len() as usize)
                }),
            },
    {
        Self::new_hex(value)
    }

    /// The standard that the colour is held in.
    pub fn get_standered(&self) -> (standered: ColorStandered)
        ensures
            standered == self@.standard(),
    {
        proof {
            use_type_invariant(self);
        }
        self.kind
    }

    /// Red, green and blue, if RGB is the standard that the colour is held in.
    /// Nothing is converted.
    pub fn to_rgb(&self) -> (rgb: Option<(NumType, NumType, NumType)>)
        ensures
            match rgb {
                Some(t) => self@ == Stored::Rgb(t.0@, t.1@, t.2@),
                None => self@.standard() != ColorStandered::Rgb,
            },
    {
        proof {
            use_type_invariant(self);
        }
        self.rgb
    }

    /// Hue, saturation and lightness, if HSL is the standard that the colour is held in.
    pub fn to_hsl(&self) -> (hsl: Option<(Component, Component, Component)>)
        ensures
            match hsl {
                Some(t) => self@ == Stored::Hsl(t.0@, t.1@, t.2@),
                None => self@.standard() != ColorStandered::Hsl,
            },
    {
        proof {
            use_type_invariant(self);
        }
        self.hsl
    }

    /// Hue, saturation and value, if HSV is the standard that the colour is held in.
    pub fn to_hsv(&self) -> (hsv: Option<(Component, Component, Component)>)
        ensures
            match hsv {
                Some(t) => self@ == Stored::Hsv(t.0@, t.1@, t.2@),
                None => self@.standard() != ColorStandered::Hsv,
            },
    {
        proof {
            use_type_invariant(self);
        }
        self.hsv
    }

    /// Cyan, magenta, yellow and black, if CMYK is the standard that the colour is held in.
    pub fn to_cmyk(&self) -> (cmyk: Option<(Component, Component, Component, Component)>)
        ensures
            match cmyk {
                Some(t) => self@ == Stored::Cmyk(t.0@, t.1@, t.2@, t.3@),
                None => self@.standard() != ColorStandered::Cmyk,
            },
    {
        proof {
            use_type_invariant(self);
        }
        self.cmyk
    }

    /// Foreground, background and alpha, if the colour is held as the one over the other.
    pub fn to_rgba(&self) -> (rgba: Option<RGBA>)
        ensures
            match rgba {
                Some(c) => self@ == Stored::Rgba(views(c.foreground), views(c.background), c.alpha@),
                None => self@.standard() != ColorStandered::Rgba,
            },
    {
        proof {
            use_type_invariant(self);
        }
        self.rgba
    }

    /// The colour in RGB, whatever it is held in.
    fn hub(&self) -> (rgb: (NumType, NumType, NumType))
        ensures
            views(rgb) == self@.rgb(),
            is_rgb(views(rgb)),
    {
        proof {
            use_type_invariant(self);
        }
        let zero = NumType { steps: 0 };
        match self.kind {
            ColorStandered::Unset => (zero, zero, zero),
            ColorStandered::Rgb => match self.rgb {
                Some(t) => t,
                None => (zero, zero, zero),
            },
            ColorStandered::Hsl => match self.hsl {
                Some(t) => hsl_to_rgb(t.0, t.1, t.2),
                None => (zero, zero, zero),
            },
            ColorStandered::Hsv => match self.hsv {
                Some(t) => hsv_to_rgb(t.0, t.1, t.2),
                None => (zero, zero, zero),
            },
            ColorStandered::Cmyk => match self.cmyk {
                Some(t) => cmyk_to_rgb(t.0, t.1, t.2, t.3),
                None => (zero, zero, zero),
            },
            ColorStandered::Rgba => match self.rgba {
                Some(c) => c.to_rgb(),
                None => (zero, zero, zero),
            },
        }
    }

    /// The colour that holds in `standered` what this one holds, or this one
    /// itself where nothing is to convert.
    fn converted(&self, standered: ColorStandered) -> (color: Self)
        ensures
            color@ == self@.convert(standered),
    {
        proof {
            use_type_invariant(self);
        }
        let kind = self.kind;
        if kind == ColorStandered::Unset || standered == kind {
            return *self;
        }
        match standered {
            ColorStandered::Unset => *self,
            ColorStandered::Rgba => *self,
            ColorStandered::Rgb => Self::of_rgb(self.hub()),
            ColorStandered::Hsl => {
                let rgb = self.hub();
                Self::of_hsl(rgb_to_hsl(rgb.0, rgb.1, rgb.2))
            },
            ColorStandered::Hsv => {
                let rgb = self.hub();
                Self::of_hsv(rgb_to_hsv(rgb.0, rgb.1, rgb.2))
            },
            ColorStandered::Cmyk => {
                let rgb = self.hub();
                Self::of_cmyk(rgb_to_cmyk(rgb.0, rgb.1, rgb.2))
            },
        }
    }

    /// Converts the colour to `standered`: it then holds the same colour in
    /// that standard, reached through RGB, and no longer holds the tuple that
    /// it held. Nothing changes where `standered` is the colour's own
    /// standard, `Unset` or `Rgba`, or where the colour holds nothing.
    pub fn as_standered(&mut self, standered: ColorStandered)
        ensures
            final(self)@ == old(self)@.convert(standered),
    {
        *self = self.converted(standered);
    }

    /// The tuple that the colour holds, as four numbers of which the last is
    /// there for CMYK only. Components come as finely as channels.
    pub fn get_internel_color(&self) -> (tuple: (NumType, NumType, NumType, Option<NumType>))
        ensures
            views4(tuple) == self@.tuple(),
    {
        proof {
            use_type_invariant(self);
        }
        let zero = NumType { steps: 0 };
        match self.kind {
            ColorStandered::Unset => (zero, zero, zero, None),
            ColorStandered::Rgb => match self.rgb {
                Some(t) => (t.0, t.1, t.2, None),
                None => (zero, zero, zero, None),
            },
            ColorStandered::Hsl => match self.hsl {
                Some(t) => (t.0.widen(), t.1.widen(), t.2.widen(), None),
                None => (zero, zero, zero, None),
            },
            ColorStandered::Hsv => match self.hsv {
                Some(t) => (t.0.widen(), t.1.widen(), t.2.widen(), None),
                None => (zero, zero, zero, None),
            },
            ColorStandered::Cmyk => match self.cmyk {
                Some(t) => (t.0.widen(), t.1.widen(), t.2.widen(), Some(t.3.widen())),
                None => (zero, zero, zero, None),
            },
            ColorStandered::Rgba => match self.rgba {
                Some(c) => {
                    let rgb = c.to_rgb();
                    (rgb.0, rgb.1, rgb.2, None)
                },
                None => (zero, zero, zero, None),
            },
        }
    }

    /// The tuple that the colour has in `standered`, computed as
    /// [`Color::as_standered`] would, with the colour left as it is.
    pub fn into_standered(&self, standered: ColorStandered) -> (tuple: (
        NumType,
        NumType,
        NumType,
        Option<NumType>,
    ))
        ensures
            views4(tuple) == self@.project(standered),
    {
        let zero = NumType { steps: 0 };
        if standered == ColorStandered::Unset {
            return (zero, zero, zero, None);
        }
        if standered == ColorStandered::Rgba && self.get_standered() != ColorStandered::Rgba {
            return (zero, zero, zero, None);
        }
        self.converted(standered).get_internel_color()
    }

    /// The escape sequence that sets the foreground to this colour, followed
    /// by the one that sets the background to `background` if there is one.
    /// Each channel is cut down to its whole part, not rounded.
    pub fn to_string(&self, background: Option<&Color>) -> (text: String)
        ensures
            text@ == render_text(
                self@.rgb(),
                match background {
                    Some(color) => Some(color@.rgb()),
                    None => None,
                },
            ),
    {
        let back = match background {
            Some(color) => Some(color.hub()),
            None => None,
        };
        render(self.hub(), back)
    }

    /// The RGB colour that blends this colour into `to_mix`: each channel is
    /// `(this * alpha + to_mix) / 2`. An alpha that is not between 0 and 1 is
    /// the one error, and it comes before either colour is looked at.
    pub fn into_rgb_with_alpha(&self, to_mix: &Color, alpha: Component) -> (made: Result<
        Self,
        Exeptions,
    >)
        ensures
            match made {
                Ok(color) => alpha_fault(alpha) is None && color@ == blended(
                    self@,
                    to_mix@,
                    alpha@,
                ),
                Err(e) => alpha_fault(alpha) == Some(e),
            },
    {
        if let Some(e) = check_alpha(alpha) {
            return Err(e);
        }
        Ok(Self::of_rgb(blend(self.hub(), to_mix.hub(), alpha)))
    }
}

/// The colour that blending `front` into `back` with `alpha` gives.
pub open spec fn blended(front: Stored, back: Stored, alpha: int) -> Stored {
    let (r, g, b) = blend_spec(front.rgb(), back.rgb(), alpha);
    Stored::Rgb(r, g, b)
}

/// The colour under the name that its plain constructors and functions are
/// written for: those that take and give colours themselves.
pub type ColorStruct = Color;

impl ColorStruct {
    /// A colour from red, green and blue, each between 0 and 255. The first one
    /// that is not is the error.
    pub fn new_rgb(red: NumType, green: NumType, blue: NumType) -> (made: Result<Self, Exeptions>)
        ensures
            match made {
                Ok(color) => rgb_fault(red, green, blue) is None && color@ == Stored::Rgb(
                    red@,
                    green@,
                    blue@,
                ),
                Err(e) => rgb_fault(red, green, blue) == Some(e),
            },
    {
        match check_rgb(red, green, blue) {
            Some(e) => Err(e),
            None => Ok(Self::of_rgb((red, green, blue))),
        }
    }

    /// A colour from a hue between 0 and 360 and a saturation and a lightness
    /// between 0 and 1. The first one that is out of range is the error.
    pub fn new_hsl(hue: Component, sateration: Component, lightness: Component) -> (made: Result<
        Self,
        Exeptions,
    >)
        ensures
            match made {
                Ok(color) => hsl_fault(hue, sateration, lightness) is None && color@ == Stored::Hsl(
                    hue@,
                    sateration@,
                    lightness@,
                ),
                Err(e) => hsl_fault(hue, sateration, lightness) == Some(e),
            },
    {
        match check_hsl(hue, sateration, lightness) {
            Some(e) => Err(e),
            None => Ok(Self::of_hsl((hue, sateration, lightness))),
        }
    }

    /// A colour from a hue between 0 and 360 and a saturation and a value
    /// between 0 and 1. The first one that is out of range is the error.
    pub fn new_hsv(hue: Component, sateration: Component, value: Component) -> (made: Result<
        Self,
        Exeptions,
    >)
        ensures
            match made {
                Ok(color) => hsv_fault(hue, sateration, value) is None && color@ == Stored::Hsv(
                    hue@,
                    sateration@,
                    value@,
                ),
                Err(e) => hsv_fault(hue, sateration, value) == Some(e),
            },
    {
        match check_hsv(hue, sateration, value) {
            Some(e) => Err(e),
            None => Ok(Self::of_hsv((hue, sateration, value))),
        }
    }

    /// A colour from cyan, magenta, yellow and black, each between 0 and 1. The
    /// first one that is not is the error.
    pub fn new_cmyk(cyan: Component, magenta: Component, yellow: Component, black: Component) -> (made:
        Result<Self, Exeptions>)
        ensures
            match made {
                Ok(color) => cmyk_fault(cyan, magenta, yellow, black) is None && color@
                    == Stored::Cmyk(cyan@, magenta@, yellow@, black@),
                Err(e) => cmyk_fault(cyan, magenta, yellow, black) == Some(e),
            },
    {
        match check_cmyk(cyan, magenta, yellow, black) {
            Some(e) => Err(e),
            None => Ok(Self::of_cmyk((cyan, magenta, yellow, black))),
        }
    }

    /// A colour from hex text: `RRGGBB` or `#RRGGBB`. A text of another length
    /// than 6 or 7 characters is turned down for its length; one whose payload,
    /// which is the text without its `#`, is not hexadecimal digits or says
    /// more than 24 bits, for what it says.
    pub fn new_hex(value: String) -> (made: Result<Self, Exeptions>)
        ensures
            match made {
                Ok(color) => match hex_colour(value@) {
                    Some((r, g, b)) => color@ == Stored::Rgb(r * STEPS, g * STEPS, b * STEPS),
                    None => false,
                },
                Err(e) => hex_colour(value@) is None && e == (if has_hex_length(value@) {
                    Exeptions::InvalidHex(value)
                } else {
                    Exeptions::IncorrectLength(value@.len() as usize)
                }),
            },
    {
        let len = value.as_str().unicode_len();
        if len != 6 && len != 7 {
            return Err(Exeptions::IncorrectLength(len));
        }
        match read_hex(value.as_str()) {
            Some((r, g, b)) => Ok(
                Self::of_rgb(
                    (
                        NumType::from_int(r),
                        NumType::from_int(g),
                        NumType::from_int(b),
                    ),
                ),
            ),
            None => Err(Exeptions::InvalidHex(value)),
        }
    }

    /// As [`Color::to_string`], with a background that is handed over.
    pub fn to_string_no_handle(&self, background: Option<Self>) -> (text: String)
        ensures
            text@ == render_text(
                self@.rgb(),
                match background {
                    Some(color) => Some(color@.rgb()),
                    None => None,
                },
            ),
    {
        match background {
            Some(color) => self.to_string(Some(&color)),
            None => self.to_string(None),
        }
    }

    /// As [`Color::into_rgb_with_alpha`], with a colour that is handed over.
    pub fn as_rgb_with_alpha_no_handle(&self, to_mix: Self, alpha: Component) -> (made: Result<
        Self,
        Exeptions,
    >)
        ensures
            match made {
                Ok(color) => alpha_fault(alpha) is None && color@ == blended(
                    self@,
                    to_mix@,
                    alpha@,
                ),
                Err(e) => alpha_fault(alpha) == Some(e),
            },
    {
        self.into_rgb_with_alpha(&to_mix, alpha)
    }
}

impl Default for Color {
    /// The colour that holds nothing.
    fn default() -> (color: Self)
        ensures
            color@ == Stored::Nothing,
    {
        Self::empty()
    }
}

} // verus!

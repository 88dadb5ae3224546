//! The constructors of [`Color`] under one name.

use vstd::prelude::*;
use crate::color::Color;
use crate::error::Exeptions;
use crate::hex::{has_hex_length, hex_colour};
use crate::num::{Component, NumType, STEPS};
use crate::stored::Stored;
use crate::validate::{cmyk_fault, hsl_fault, hsv_fault, rgb_fault};

verus! {

/// Makes colours: each function is the constructor of [`Color`] of the same name.
pub struct ColorPrint;

impl ColorPrint {
    pub fn new(red: NumType, green: NumType, blue: NumType) -> (made: Result<Color, Exeptions>)
        ensures
            match made {
                Ok(color) => rgb_fault(red, green, blue) is None && color@ == Stored::Rgb(
                    red@,
                    green@,
                    blue@,
                ),
                Err(e) => rgb_fault(red, green, blue) == Some(e),
            },
    {
        Color::new(red, green, blue)
    }

    pub fn from_cmyk(cyan: Component, magenta: Component, yellow: Component, black: Component) -> (made:
        Result<Color, Exeptions>)
        ensures
            match made {
                Ok(color) => cmyk_fault(cyan, magenta, yellow, black) is None && color@
                    == Stored::Cmyk(cyan@, magenta@, yellow@, black@),
                Err(e) => cmyk_fault(cyan, magenta, yellow, black) == Some(e),
            },
    {
        Color::from_cmyk(cyan, magenta, yellow, black)
    }

    pub fn from_hex(value: String) -> (made: Result<Color, Exeptions>)
        ensures
            match made {
                Ok(color) => match hex_colour(value@) {
                    Some((r, g, b)) => color@ == Stored::Rgb(r * STEPS, g * STEPS, b * STEPS),
                    None => false,
                },
                Err(e) => hex_colour(value@) is None && e == (if has_hex_length(value@) {
                    Exeptions::InvalidHex(value)
                } else {
                    Exeptions::IncorrectLength(value@.len() as usize)
                }),
            },
    {
        Color::from_hex(value)
    }

    pub fn from_hsl(hue: Component, sateration: Component, lightness: Component) -> (made: Result<
        Color,
        Exeptions,
    >)
        ensures
            match made {
                Ok(color) => hsl_fault(hue, sateration, lightness) is None && color@ == Stored::Hsl(
                    hue@,
                    sateration@,
                    lightness@,
                ),
                Err(e) => hsl_fault(hue, sateration, lightness) == Some(e),
            },
    {
        Color::from_hsl(hue, sateration, lightness)
    }

    pub fn from_hsv(hue: Component, sateration: Component, value: Component) -> (made: Result<
        Color,
        Exeptions,
    >)
        ensures
            match made {
                Ok(color) => hsv_fault(hue, sateration, value) is None && color@ == Stored::Hsv(
                    hue@,
                    sateration@,
                    value@,
                ),
                Err(e) => hsv_fault(hue, sateration, value) == Some(e),
            },
    {
        Color::from_hsv(hue, sateration, value)
    }

    pub fn from_rgb(red: NumType, green: NumType, blue: NumType) -> (made: Result<Color, Exeptions>)
        ensures
            match made {
                Ok(color) => rgb_fault(red, green, blue) is None && color@ == Stored::Rgb(
                    red@,
                    green@,
                    blue@,
                ),
                Err(e) => rgb_fault(red, green, blue) == Some(e),
            },
    {
        Color::from_rgb(red, green, blue)
    }
}

} // verus!

//! The colour standards.

use vstd::prelude::*;

verus! {

/// The standard a colour is held in. `Unset` is the standard of a colour that
/// holds nothing; as a target it asks for nothing. Two standards are equal when
/// they are the same variant.
#[derive(Clone, Copy, Debug, PartialEq, Eq, Structural)]
pub enum ColorStandered {
    Unset,
    Rgb,
    Hsl,
    Hsv,
    Cmyk,
    /// A foreground laid over a background: it can be held and read, and
    /// blends down to RGB when it is converted, but nothing converts into it.
    Rgba,
}

} // verus!

//! The two fixed-point scalars that colours are measured in.
//!
//! A [`Component`] is a hue, a saturation, a lightness, a value, an ink or an
//! alpha, counted in trillionths. A [`NumType`] is a channel, or any number
//! that a colour exposes, counted in steps of which there are a quarter of
//! `UNIT * UNIT * UNIT` to one: so fine that the product of a hue, a
//! saturation and a value still shows in a channel, and a hue can be read
//! back from three channels however little chroma they hold.

use vstd::prelude::*;

verus! {

/// One, as a count of trillionths: what a [`Component`] counts in.
#[verifier::inline]
pub const UNIT: i64 = 1_000_000_000_000;

/// `UNIT * UNIT`: what the product of two components counts in.
#[verifier::inline]
pub const UNIT_SQUARED: i128 = 1_000_000_000_000_000_000_000_000;

/// One, as a count of steps: what a [`NumType`] counts in. It is `UNIT *
/// UNIT * UNIT / 4`.
#[verifier::inline]
pub const STEPS: i128 = 250_000_000_000_000_000_000_000_000_000_000_000;

/// A trillionth, as a count of steps: `STEPS / UNIT`.
#[verifier::inline]
pub const GRAIN: i128 = 250_000_000_000_000_000_000_000;

/// A component of a colour: a signed count of trillionths.
#[derive(Clone, Copy, Debug, PartialEq, Eq, Structural, PartialOrd, Ord, Hash)]
pub struct Component {
    pub trillionths: i64,
}

impl View for Component {
    type V = int;

    open spec fn view(&self) -> int {
        self.trillionths as int
    }
}

/// A channel of a colour, or a component taken as finely: a signed count of steps.
#[derive(Clone, Copy, Debug, PartialEq, Eq, Structural, PartialOrd, Ord, Hash)]
pub struct NumType {
    pub steps: i128,
}

impl View for NumType {
    type V = int;

    open spec fn view(&self) -> int {
        self.steps as int
    }
}

/// The distance of `x` from zero.
pub open spec fn magnitude(x: int) -> int {
    if x >= 0 {
        x
    } else {
        -x
    }
}

/// A count of trillionths held to where numbers reach: from -680 to 680.
pub open spec fn reach_of(t: int) -> int {
    if t > 680 * UNIT {
        680 * UNIT
    } else if t < -680 * UNIT {
        -680 * UNIT
    } else {
        t
    }
}

/// The integer part of a count of steps, rounded toward zero.
pub open spec fn trunc_of(n: int) -> int {
    if n >= 0 {
        n / (STEPS as int)
    } else {
        -((-n) / (STEPS as int))
    }
}

impl Component {
    /// The component that is `trillionths` trillionths.
    pub fn from_trillionths(trillionths: i64) -> (c: Component)
        ensures
            c@ == trillionths,
    {
        Component { trillionths }
    }

    /// This component as a count of trillionths.
    pub fn trillionths(self) -> (n: i64)
        ensures
            n == self@,
    {
        self.trillionths
    }

    /// This component as finely as a channel, as far as a channel reaches.
    pub fn widen(self) -> (n: NumType)
        ensures
            n@ == reach_of(self@) * GRAIN,
    {
        NumType::from_trillionths(self.trillionths)
    }
}

impl NumType {
    /// The number that is `steps` steps.
    pub fn from_steps(steps: i128) -> (n: NumType)
        ensures
            n@ == steps,
    {
        NumType { steps }
    }

    /// The number that is `trillionths` trillionths, or the number nearest
    /// to it that there is: numbers reach from -680 to 680.
    pub fn from_trillionths(trillionths: i64) -> (n: NumType)
        ensures
            n@ == reach_of(trillionths as int) * GRAIN,
    {
        let within: i64 = if trillionths > 680 * UNIT {
            680 * UNIT
        } else if trillionths < -680 * UNIT {
            -680 * UNIT
        } else {
            trillionths
        };
        NumType { steps: (within as i128) * GRAIN }
    }

    /// The whole number `whole`.
    pub fn from_int(whole: u8) -> (n: NumType)
        ensures
            n@ == whole * STEPS,
    {
        NumType { steps: (whole as i128) * STEPS }
    }

    /// This number as a count of steps.
    pub fn steps(self) -> (n: i128)
        ensures
            n == self@,
    {
        self.steps
    }

    /// The integer part of this number: the fraction is cut off, not rounded.
    pub fn trunc(self) -> (whole: i128)
        ensures
            whole == trunc_of(self@),
    {
        self.steps / STEPS
    }
}

} // verus!

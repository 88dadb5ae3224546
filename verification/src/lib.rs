//! Colour values that can be held in RGB, HSL, HSV or CMYK, converted between
//! these standards on demand, rendered as ANSI escape sequences and blended.
//!
//! Numbers are decimal fixed-point values on two grids. A [`Component`]
//! counts trillionths; a [`NumType`], which holds a channel, counts steps
//! that are finer by far, so that a hue comes back from three channels
//! however little chroma they hold. Each conversion therefore has one exact
//! result, which its contract states.
//!
//! - [`num`], [`wide`], [`range`], [`text`]: the numbers, their products, their
//!   ranges and how they are written;
//! - [`helper`], [`to_rgb`], [`from_rgb`], [`rgba`]: the conversions and the blend;
//! - [`standard`], [`stored`], [`color`], [`color_print`]: the colour and what
//!   converting and projecting do to it;
//! - [`hex`], [`ansi`], [`validate`], [`error`]: what a colour is read from and
//!   written as, and what it is turned down for;
//! - [`arith`], [`bounds`], [`wheel`], [`levels`], [`round_trip`],
//!   [`through_rgb`]: what holds of every conversion, and of a conversion
//!   and its way back.

pub mod ansi;
pub mod arith;
pub mod bounds;
pub mod color;
pub mod color_print;
pub mod error;
pub mod from_rgb;
pub mod helper;
pub mod hex;
pub mod levels;
pub mod num;
pub mod range;
pub mod rgba;
pub mod round_trip;
pub mod through_rgb;
pub mod standard;
pub mod stored;
pub mod text;
pub mod to_rgb;
pub mod validate;
pub mod wheel;
pub mod wide;

pub use color::{Color, ColorStruct};
pub use color_print::ColorPrint;
pub use error::Exeptions;
pub use num::{Component, NumType, GRAIN, STEPS, UNIT, UNIT_SQUARED};
pub use rgba::RGBA;
pub use standard::ColorStandered;
pub use stored::Stored;

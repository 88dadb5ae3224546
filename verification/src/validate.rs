//! The checks that the constructors make, one field after the other.

use vstd::prelude::*;
use crate::error::Exeptions;
use crate::num::{Component, NumType};
use crate::range::{
    channel_in_range, hue_in_range, is_channel, is_hue, is_ratio, ratio_in_range,
};

verus! {

/// The first of red, green and blue that is no channel, if there is one.
pub open spec fn rgb_fault(red: NumType, green: NumType, blue: NumType) -> Option<Exeptions> {
    if !is_channel(red@) {
        Some(Exeptions::RedOutOfRange(red))
    } else if !is_channel(green@) {
        Some(Exeptions::GreenOutOfRange(green))
    } else if !is_channel(blue@) {
        Some(Exeptions::BlueOutOfRange(blue))
    } else {
        None
    }
}

/// The first of hue, saturation and lightness that is out of range, if there is one.
pub open spec fn hsl_fault(hue: Component, sateration: Component, lightness: Component) -> Option<
    Exeptions,
> {
    if !is_hue(hue@) {
        Some(Exeptions::HueOutOfRange(hue))
    } else if !is_ratio(sateration@) {
        Some(Exeptions::SaturationOutOfRange(sateration))
    } else if !is_ratio(lightness@) {
        Some(Exeptions::LightnessOutOfRange(lightness))
    } else {
        None
    }
}

/// The first of hue, saturation and value that is out of range, if there is one.
pub open spec fn hsv_fault(hue: Component, sateration: Component, value: Component) -> Option<
    Exeptions,
> {
    if !is_hue(hue@) {
        Some(Exeptions::HueOutOfRange(hue))
    } else if !is_ratio(sateration@) {
        Some(Exeptions::SaturationOutOfRange(sateration))
    } else if !is_ratio(value@) {
        Some(Exeptions::ValueOutOfRange(value))
    } else {
        None
    }
}

/// The first of cyan, magenta, yellow and black that is out of range, if there is one.
pub open spec fn cmyk_fault(cyan: Component, magenta: Component, yellow: Component, black: Component)
    -> Option<Exeptions> {
    if !is_ratio(cyan@) {
        Some(Exeptions::CyanOutOfRange(cyan))
    } else if !is_ratio(magenta@) {
        Some(Exeptions::MagentaOutOfRange(magenta))
    } else if !is_ratio(yellow@) {
        Some(Exeptions::YellowOutOfRange(yellow))
    } else if !is_ratio(black@) {
        Some(Exeptions::BlackOutOfRange(black))
    } else {
        None
    }
}

/// What is wrong with an alpha, if anything is.
pub open spec fn alpha_fault(alpha: Component) -> Option<Exeptions> {
    if !is_ratio(alpha@) {
        Some(Exeptions::AlphaOutOfRange(alpha))
    } else {
        None
    }
}

/// The first fault of a foreground, a background and an alpha, checked in this order.
pub open spec fn rgba_fault(
    foreground: (NumType, NumType, NumType),
    background: (NumType, NumType, NumType),
    alpha: Component,
) -> Option<Exeptions> {
    if rgb_fault(foreground.0, foreground.1, foreground.2) is Some {
        rgb_fault(foreground.0, foreground.1, foreground.2)
    } else if rgb_fault(background.0, background.1, background.2) is Some {
        rgb_fault(background.0, background.1, background.2)
    } else {
        alpha_fault(alpha)
    }
}

/// Checks red, then green, then blue.
pub fn check_rgb(red: NumType, green: NumType, blue: NumType) -> (fault: Option<Exeptions>)
    ensures
        fault == rgb_fault(red, green, blue),
{
    if !channel_in_range(red) {
        Some(Exeptions::RedOutOfRange(red))
    } else if !channel_in_range(green) {
        Some(Exeptions::GreenOutOfRange(green))
    } else if !channel_in_range(blue) {
        Some(Exeptions::BlueOutOfRange(blue))
    } else {
        None
    }
}

/// Checks hue, then saturation, then lightness.
pub fn check_hsl(hue: Component, sateration: Component, lightness: Component) -> (fault: Option<
    Exeptions,
>)
    ensures
        fault == hsl_fault(hue, sateration, lightness),
{
    if !hue_in_range(hue) {
        Some(Exeptions::HueOutOfRange(hue))
    } else if !ratio_in_range(sateration) {
        Some(Exeptions::SaturationOutOfRange(sateration))
    } else if !ratio_in_range(lightness) {
        Some(Exeptions::LightnessOutOfRange(lightness))
    } else {
        None
    }
}

/// Checks hue, then saturation, then value.
pub fn check_hsv(hue: Component, sateration: Component, value: Component) -> (fault: Option<Exeptions>)
    ensures
        fault == hsv_fault(hue, sateration, value),
{
    if !hue_in_range(hue) {
        Some(Exeptions::HueOutOfRange(hue))
    } else if !ratio_in_range(sateration) {
        Some(Exeptions::SaturationOutOfRange(sateration))
    } else if !ratio_in_range(value) {
        Some(Exeptions::ValueOutOfRange(value))
    } else {
        None
    }
}

/// Checks cyan, then magenta, then yellow, then black.
pub fn check_cmyk(cyan: Component, magenta: Component, yellow: Component, black: Component) -> (fault:
    Option<Exeptions>)
    ensures
        fault == cmyk_fault(cyan, magenta, yellow, black),
{
    if !ratio_in_range(cyan) {
        Some(Exeptions::CyanOutOfRange(cyan))
    } else if !ratio_in_range(magenta) {
        Some(Exeptions::MagentaOutOfRange(magenta))
    } else if !ratio_in_range(yellow) {
        Some(Exeptions::YellowOutOfRange(yellow))
    } else if !ratio_in_range(black) {
        Some(Exeptions::BlackOutOfRange(black))
    } else {
        None
    }
}

/// Checks an alpha.
pub fn check_alpha(alpha: Component) -> (fault: Option<Exeptions>)
    ensures
        fault == alpha_fault(alpha),
{
    if !ratio_in_range(alpha) {
        Some(Exeptions::AlphaOutOfRange(alpha))
    } else {
        None
    }
}

} // verus!

//! ANSI escape sequences that set a terminal's colours.

use vstd::prelude::*;
use vstd::string::*;
use crate::num::{trunc_of, NumType};
use crate::rgba::{is_rgb, views};
use crate::text::{decimal_digits, push_decimal};

verus! {

/// The three channels of `rgb`, each cut down to its whole part, written in
/// decimal with `;` between them and `m` behind them.
pub open spec fn channels_text(rgb: (int, int, int)) -> Seq<char> {
    decimal_digits(trunc_of(rgb.0) as nat) + ";"@ + decimal_digits(trunc_of(rgb.1) as nat) + ";"@
        + decimal_digits(trunc_of(rgb.2) as nat) + "m"@
}

/// The sequence that sets the foreground to `rgb`.
pub open spec fn foreground_text(rgb: (int, int, int)) -> Seq<char> {
    "\x1b[38;2;"@ + channels_text(rgb)
}

/// The sequence that sets the background to `rgb`.
pub open spec fn background_text(rgb: (int, int, int)) -> Seq<char> {
    "\x1b[48;2;"@ + channels_text(rgb)
}

/// The sequence that sets the foreground, followed by the one that sets the
/// background where there is a background.
pub open spec fn render_text(foreground: (int, int, int), background: Option<(int, int, int)>)
    -> Seq<char> {
    match background {
        Some(rgb) => foreground_text(foreground) + background_text(rgb),
        None => foreground_text(foreground),
    }
}

/// Appends the three channels of `rgb` to `out`.
fn push_channels(out: &mut String, rgb: (NumType, NumType, NumType))
    requires
        is_rgb(views(rgb)),
    ensures
        final(out)@ == old(out)@ + channels_text(views(rgb)),
{
    push_decimal(out, rgb.0.trunc() as u128);
    out.append(";");
    push_decimal(out, rgb.1.trunc() as u128);
    out.append(";");
    push_decimal(out, rgb.2.trunc() as u128);
    out.append("m");
    assert(out@ =~= old(out)@ + channels_text(views(rgb)));
}

/// Writes the escape sequences for a foreground and, if there is one, a background.
pub fn render(foreground: (NumType, NumType, NumType), background: Option<
    (NumType, NumType, NumType),
>) -> (text: String)
    requires
        is_rgb(views(foreground)),
        background matches Some(rgb) ==> is_rgb(views(rgb)),
    ensures
        text@ == render_text(
            views(foreground),
            match background {
                Some(rgb) => Some(views(rgb)),
                None => None,
            },
        ),
{
    let mut text = String::from_str("\x1b[38;2;");
    push_channels(&mut text, foreground);
    if let Some(rgb) = background {
        text.append("\x1b[48;2;");
        push_channels(&mut text, rgb);
        assert(text@ =~= foreground_text(views(foreground)) + background_text(views(rgb)));
    }
    text
}

} // verus!

//! What a constructor or a blend answers when it turns its input down.

use vstd::prelude::*;
use vstd::string::*;
use crate::num::{Component, NumType};
use crate::text::{component_text, decimal_digits, decimal_text, push_decimal};

verus! {

/// The reason an input was turned down. Each variant carries the value that was
/// out of range, the length that was wrong or the text that is no colour.
#[derive(Debug, PartialEq)]
pub enum Exeptions {
    /// A hex colour has 6 characters, or 7 with its `#`.
    IncorrectLength(usize),
    /// The characters are not hexadecimal digits, or say more than 24 bits.
    InvalidHex(String),
    HueOutOfRange(Component),
    SaturationOutOfRange(Component),
    LightnessOutOfRange(Component),
    ValueOutOfRange(Component),
    CyanOutOfRange(Component),
    MagentaOutOfRange(Component),
    YellowOutOfRange(Component),
    BlackOutOfRange(Component),
    RedOutOfRange(NumType),
    GreenOutOfRange(NumType),
    BlueOutOfRange(NumType),
    AlphaOutOfRange(Component),
}

/// The sentence for a value, written `got`, that should lie between 0 and `top`.
pub open spec fn range_text(top: nat, got: Seq<char>) -> Seq<char> {
    "Expectd a value inbetween 0 and "@ + decimal_digits(top) + " but got "@ + got
}

/// The sentence for a hex colour of `got` characters.
pub open spec fn length_text(got: nat) -> Seq<char> {
    "Expctd a length between 6 and 7 (inclusive), but got length "@ + decimal_digits(got)
}

/// The sentence for a text that is no hex colour.
pub open spec fn hex_text(got: Seq<char>) -> Seq<char> {
    "Expectd hexadecimal digits worth 24 bits but got "@ + got
}

/// The sentence that [`Exeptions::to_string`] gives for `e`.
pub open spec fn message_of(e: Exeptions) -> Seq<char> {
    match e {
        Exeptions::IncorrectLength(len) => length_text(len as nat),
        Exeptions::InvalidHex(text) => hex_text(text@),
        Exeptions::HueOutOfRange(v) => range_text(360, component_text(v@)),
        Exeptions::SaturationOutOfRange(v) => range_text(1, component_text(v@)),
        Exeptions::LightnessOutOfRange(v) => range_text(1, component_text(v@)),
        Exeptions::ValueOutOfRange(v) => range_text(1, component_text(v@)),
        Exeptions::CyanOutOfRange(v) => range_text(1, component_text(v@)),
        Exeptions::MagentaOutOfRange(v) => range_text(1, component_text(v@)),
        Exeptions::YellowOutOfRange(v) => range_text(1, component_text(v@)),
        Exeptions::BlackOutOfRange(v) => range_text(1, component_text(v@)),
        Exeptions::RedOutOfRange(v) => range_text(255, decimal_text(v@)),
        Exeptions::GreenOutOfRange(v) => range_text(255, decimal_text(v@)),
        Exeptions::BlueOutOfRange(v) => range_text(255, decimal_text(v@)),
        Exeptions::AlphaOutOfRange(v) => range_text(1, component_text(v@)),
    }
}

/// Writes the sentence for a value that should lie between 0 and `top`.
fn range_message(top: u128, got: String) -> (text: String)
    ensures
        text@ == range_text(top as nat, got@),
{
    let mut text = String::from_str("Expectd a value inbetween 0 and ");
    push_decimal(&mut text, top);
    text.append(" but got ");
    text.append(got.as_str());
    text
}

impl Exeptions {
    /// The reason in words.
    pub fn to_string(&self) -> (text: String)
        ensures
            text@ == message_of(*self),
    {
        match self {
            Exeptions::IncorrectLength(len) => {
                let mut text = String::from_str(
                    "Expctd a length between 6 and 7 (inclusive), but got length ",
                );
                push_decimal(&mut text, *len as u128);
                text
            },
            Exeptions::InvalidHex(got) => {
                let mut text = String::from_str("Expectd hexadecimal digits worth 24 bits but got ");
                text.append(got.as_str());
                text
            },
            Exeptions::HueOutOfRange(v) => range_message(360, v.to_string()),
            Exeptions::SaturationOutOfRange(v) => range_message(1, v.to_string()),
            Exeptions::LightnessOutOfRange(v) => range_message(1, v.to_string()),
            Exeptions::ValueOutOfRange(v) => range_message(1, v.to_string()),
            Exeptions::CyanOutOfRange(v) => range_message(1, v.to_string()),
            Exeptions::MagentaOutOfRange(v) => range_message(1, v.to_string()),
            Exeptions::YellowOutOfRange(v) => range_message(1, v.to_string()),
            Exeptions::BlackOutOfRange(v) => range_message(1, v.to_string()),
            Exeptions::RedOutOfRange(v) => range_message(255, v.to_string()),
            Exeptions::GreenOutOfRange(v) => range_message(255, v.to_string()),
            Exeptions::BlueOutOfRange(v) => range_message(255, v.to_string()),
            Exeptions::AlphaOutOfRange(v) => range_message(1, v.to_string()),
        }
    }
}

} // verus!

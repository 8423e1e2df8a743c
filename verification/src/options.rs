//! Checks on the options of the command line.

use vstd::prelude::*;
use vstd::string::StringExecFns;
use crate::text::{decimal_digits, parse_u32, push_decimal, u32_value, NumberFault};
use crate::Dims;

verus! {

/// Why an option is refused.
#[derive(Copy, Clone, Debug, PartialEq, Eq, Structural)]
pub enum OptionError {
    /// The text is no `u32`.
    ParseIntError(NumberFault),
    /// The background's width or the height that follows from it is no
    /// whole number of macroblocks; the height is given.
    NotMacroblocks { bg_height: u32 },
}

/// The height of a background of the given width: nine sixteenths of it.
pub open spec fn background_height(bg_width: u32) -> u32 {
    (bg_width * 9 / 16) as u32
}

/// The height of a background of the given width, which keeps a ratio of
/// 16 to 9.
pub fn bg_height(bg_width: u32) -> (h: u32)
    ensures
        h == background_height(bg_width),
{
    (bg_width as u64 * 9 / 16) as u32
}

/// The size of a background of the given width.
pub fn bg_dims(bg_width: u32) -> (d: Dims)
    ensures
        d == (Dims { width: bg_width, height: background_height(bg_width) }),
{
    Dims { width: bg_width, height: bg_height(bg_width) }
}

/// What the text of a background width gives.
pub open spec fn bg_width_value(src: Seq<char>) -> Result<u32, OptionError> {
    match u32_value(src) {
        Err(fault) => Err(OptionError::ParseIntError(fault)),
        Ok(w) => if w % 16 == 0 && background_height(w) % 16 == 0 {
            Ok(w)
        } else {
            Err(OptionError::NotMacroblocks { bg_height: background_height(w) })
        },
    }
}

/// Makes sure that the width of the background, and the height that follows
/// from it, are multiples of 16.
pub fn parse_bg_width(src: &str) -> (r: Result<u32, OptionError>)
    ensures
        r == bg_width_value(src@),
{
    let bg_width = match parse_u32(src) {
        Ok(w) => w,
        Err(fault) => {
            return Err(OptionError::ParseIntError(fault));
        },
    };
    let bg_height = bg_height(bg_width);
    if bg_width % 16 != 0 || bg_height % 16 != 0 {
        Err(OptionError::NotMacroblocks { bg_height })
    } else {
        Ok(bg_width)
    }
}

/// The message for a refused background width.
pub open spec fn macroblock_message(bg_height: u32) -> Seq<char> {
    "Background width (and implied height: "@ + decimal_digits(bg_height as nat)
        + ") must be a multiple of 16."@
}

impl OptionError {
    /// What to tell the user. There is no text for a number that is no
    /// `u32`: the parser's fault says it all.
    pub fn message(&self) -> (m: Option<String>)
        ensures
            match *self {
                OptionError::ParseIntError(_) => m is None,
                OptionError::NotMacroblocks { bg_height } => m matches Some(text) && text@
                    == macroblock_message(bg_height),
            },
    {
        match *self {
            OptionError::ParseIntError(_) => None,
            OptionError::NotMacroblocks { bg_height } => {
                let mut text = String::from_str("Background width (and implied height: ");
                push_decimal(&mut text, bg_height as u64);
                text.append(") must be a multiple of 16.");
                Some(text)
            },
        }
    }
}

} // verus!

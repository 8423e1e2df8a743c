//! The calibration display.
//!
//! During calibration the tracker asks the display program to clear the
//! screen and to draw and erase targets. This module holds the sizes and
//! colours of what is drawn and reads the answers met when the display is
//! set up. The drawing is the caller's.

use vstd::prelude::*;
use vstd::string::StringExecFns;
use crate::text::{push_signed, signed_digits, NumberFault};

verus! {

/// Side of a calibration target in pixels.
pub const TARGET_SIZE: u32 = 24;

/// Side of the hole in a calibration target in pixels.
pub const INNER_SIZE: u32 = 4;

/// Red, green and blue of the calibration background.
pub const BACKGROUND: (u8, u8, u8) = (200, 200, 200);

/// Red, green and blue of a calibration target.
pub const TARGET: (u8, u8, u8) = (0, 0, 0);

/// Number of the display that the calibration runs on.
pub const DISP_IDX: i32 = 0;

/// What can go wrong on the calibration display.
#[derive(Debug)]
pub enum GraphicsError {
    UnrecognizedString(String),
    ParseIntError(NumberFault),
    ParseFloatError(NumberFault),
    /// Reading or writing failed; the message is the system's.
    IoError(String),
    /// The display library reported a fault.
    SDL2Error(String),
    /// The window could not be made; the message is the display library's.
    SDL2WindowBuildError(String),
    /// The canvas could not be made; the message is the display library's.
    SDL2IntegerOrSdlError(String),
}

/// The message for a number of displays that is not supported.
pub open spec fn displays_message(n: i32) -> Seq<char> {
    "We currently only support 1 display. You have "@ + signed_digits(n as int) + "."@
}

/// The message for hooks that the tracker refused.
pub open spec fn hooks_message(code: i16) -> Seq<char> {
    "Graphic Hooks: "@ + signed_digits(code as int)
}

/// Makes sure that there is exactly one display.
pub fn check_displays(n: i32) -> (r: Result<(), GraphicsError>)
    ensures
        n == 1 ==> r is Ok,
        n != 1 ==> (r matches Err(GraphicsError::SDL2Error(m)) && m@ == displays_message(n)),
{
    if n == 1 {
        Ok(())
    } else {
        let mut text = String::from_str("We currently only support 1 display. You have ");
        push_signed(&mut text, n as i64);
        text.append(".");
        Err(GraphicsError::SDL2Error(text))
    }
}

/// Reads the tracker's answer to the registration of the drawing hooks.
pub fn hooks_registered(code: i16) -> (r: Result<(), GraphicsError>)
    ensures
        code == 0 ==> r is Ok,
        code != 0 ==> (r matches Err(GraphicsError::SDL2Error(m)) && m@ == hooks_message(code)),
{
    if code == 0 {
        Ok(())
    } else {
        let mut text = String::from_str("Graphic Hooks: ");
        push_signed(&mut text, code as i64);
        Err(GraphicsError::SDL2Error(text))
    }
}

/// What a drawing hook answers the tracker: 0 where it had a canvas to draw
/// on and the drawing went well, 1 otherwise.
pub fn hook_answer(drawn: bool) -> (code: i16)
    ensures
        code == if drawn {
            0i16
        } else {
            1i16
        },
{
    if drawn {
        0
    } else {
        1
    }
}

/// Closes the calibration display. `canvas` tells whether there is a canvas
/// to close.
pub fn close_expt_graphics(canvas: bool) -> (r: Result<(), GraphicsError>)
    ensures
        canvas ==> r is Ok,
        !canvas ==> (r matches Err(GraphicsError::SDL2Error(m)) && m@
            == "Received a NULL ptr for canvas."@),
{
    if canvas {
        Ok(())
    } else {
        Err(GraphicsError::SDL2Error("Received a NULL ptr for canvas.".to_owned()))
    }
}

} // verus!

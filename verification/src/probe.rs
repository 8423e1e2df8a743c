//! The latency probe.
//!
//! A device on a serial line moves an artificial eye when it is sent the go
//! command, watches the display with a photodiode and answers with the time
//! between the two in microseconds, as decimal text. This module says when
//! to send the command and reads the answer. The serial line is the caller's.

use vstd::prelude::*;
use vstd::utf8::{decode_utf8, valid_utf8};
use crate::text::{parse_unsigned, trim, trimmed, unsigned_value, CharClass, NumberFault};

verus! {

/// The command that fires the stimulus.
pub const GO_CMD: &'static str = "g";

/// Speed of the serial line in bits per second.
pub const BAUD_RATE: u32 = 115200;

/// How long a read from the serial line may take, in milliseconds.
pub const READ_TIMEOUT_MS: u64 = 100;

/// How long the pipeline runs before the stimulus is fired, in nanoseconds.
pub const WARM_UP: u64 = 1_500_000_000;

/// Size of the buffer for the device's answer.
pub const ANSWER_LEN: usize = 32;

/// Why an answer of the device is no measurement.
#[derive(Debug)]
pub enum ProbeError {
    /// The answer is not valid UTF-8.
    Utf8Error(core::str::Utf8Error),
    /// The answer is no number of microseconds.
    ParseIntError(NumberFault),
}

/// The measurement that the text of an answer holds: the number that is
/// left when NUL characters and then white space are taken off both ends.
pub open spec fn measurement(s: Seq<char>) -> Result<u64, NumberFault> {
    let (a, b) = trimmed(s, 0, s.len() as int, CharClass::Nul);
    let (c, d) = trimmed(s, a, b, CharClass::Space);
    unsigned_value(s.subrange(c, d), u64::MAX)
}

/// Reads bytes as UTF-8 text.
///
/// Calls `core::str::from_utf8`. Trusted: the result is `Ok` exactly where
/// the bytes are valid UTF-8, and then holds the characters that they
/// encode.
#[verifier::external_body]
fn utf8_text<'a>(bytes: &'a [u8]) -> (r: Result<&'a str, core::str::Utf8Error>)
    ensures
        r is Ok == valid_utf8(bytes@),
        r matches Ok(t) ==> t@ == decode_utf8(bytes@),
{
    core::str::from_utf8(bytes)
}

/// Tells whether the stimulus is to be fired now: it has not been fired yet
/// and the pipeline has run for longer than the warm-up. `elapsed` is the
/// time since the start of the trial in nanoseconds.
pub fn trigger_due(triggered: bool, elapsed: u64) -> (fire: bool)
    ensures
        fire == (!triggered && elapsed > WARM_UP),
{
    !triggered && elapsed > WARM_UP
}

/// Reads the device's answer: the microseconds between the stimulus and the
/// change on the display.
pub fn parse_measurement(answer: &[u8]) -> (r: Result<u64, ProbeError>)
    ensures
        !valid_utf8(answer@) ==> r matches Err(ProbeError::Utf8Error(_)),
        valid_utf8(answer@) ==> match measurement(decode_utf8(answer@)) {
            Ok(micros) => r matches Ok(n) && n == micros,
            Err(fault) => r matches Err(ProbeError::ParseIntError(f)) && f == fault,
        },
{
    let text = match utf8_text(answer) {
        Ok(t) => t,
        Err(e) => {
            return Err(ProbeError::Utf8Error(e));
        },
    };
    let v = crate::text::chars_of(text);
    let (a, b) = trim(&v, 0, v.len(), CharClass::Nul);
    let (c, d) = trim(&v, a, b, CharClass::Space);
    match parse_unsigned(&v, c, d, u64::MAX) {
        Ok(n) => Ok(n),
        Err(fault) => Err(ProbeError::ParseIntError(fault)),
    }
}

} // verus!

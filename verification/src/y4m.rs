//! The header line of a YUV4MPEG2 stream.
//!
//! A header starts with the magic word, one white-space character, `W` and the
//! width, one white-space character, `H` and the height, one white-space
//! character, `F` and the frame rate as numerator, colon, denominator. What
//! follows the frame rate is not read.

use vstd::prelude::*;
use crate::text::{
    chars_of, decimal_value, has_class, is_digit, is_space, lemma_run_end, parse_decimal, run_end,
    scan_run, CharClass, NumberFault,
};
use crate::FvideoServerError;

verus! {

/// A frame rate as a ratio of two integers, in frames per second.
#[derive(Copy, Clone, Debug, PartialEq, Eq, Structural)]
pub struct FrameRate {
    pub num: u64,
    pub den: u64,
}

/// Why a line is not a usable header.
pub enum HeaderFault {
    /// The line does not have the shape of a header.
    Malformed,
    /// Width or height is no `u32`.
    Int(NumberFault),
    /// A term of the frame rate is missing or too large.
    Float(NumberFault),
}

/// The word that starts every header.
pub open spec fn magic() -> Seq<char> {
    seq!['Y', 'U', 'V', '4', 'M', 'P', 'E', 'G', '2']
}

/// Position after the last digit of the width.
pub open spec fn width_end(s: Seq<char>) -> int {
    run_end(s, 11, CharClass::Digit)
}

/// Position after the last digit of the height.
pub open spec fn height_end(s: Seq<char>) -> int {
    run_end(s, width_end(s) + 2, CharClass::Digit)
}

/// Position of the first character of the frame rate.
pub open spec fn rate_start(s: Seq<char>) -> int {
    height_end(s) + 2
}

/// Position after the last digit of the numerator.
pub open spec fn num_end(s: Seq<char>) -> int {
    run_end(s, rate_start(s), CharClass::Digit)
}

/// Position after the last digit of the denominator.
pub open spec fn den_end(s: Seq<char>) -> int {
    run_end(s, num_end(s) + 1, CharClass::Digit)
}

/// `s` has the shape of a header up to and including the first character of
/// the frame rate.
pub open spec fn header_shape(s: Seq<char>) -> bool {
    &&& s.len() >= 11
    &&& s.subrange(0, 9) == magic()
    &&& is_space(s[9])
    &&& s[10] == 'W'
    &&& width_end(s) > 11
    &&& width_end(s) + 1 < s.len()
    &&& is_space(s[width_end(s)])
    &&& s[width_end(s) + 1] == 'H'
    &&& height_end(s) > width_end(s) + 2
    &&& height_end(s) + 1 < s.len()
    &&& is_space(s[height_end(s)])
    &&& s[height_end(s) + 1] == 'F'
    &&& rate_start(s) < s.len()
    &&& (is_digit(s[rate_start(s)]) || s[rate_start(s)] == ':')
}

/// What a header line holds: width, height and frame rate, or the first fault
/// met when reading it from left to right.
pub open spec fn y4m_header(s: Seq<char>) -> Result<(u32, u32, FrameRate), HeaderFault> {
    let width = decimal_value(s.subrange(11, width_end(s)));
    let height = decimal_value(s.subrange(width_end(s) + 2, height_end(s)));
    let num = decimal_value(s.subrange(rate_start(s), num_end(s)));
    let den = decimal_value(s.subrange(num_end(s) + 1, den_end(s)));
    if !header_shape(s) {
        Err(HeaderFault::Malformed)
    } else if width > u32::MAX {
        Err(HeaderFault::Int(NumberFault::PosOverflow))
    } else if height > u32::MAX {
        Err(HeaderFault::Int(NumberFault::PosOverflow))
    } else if num_end(s) == rate_start(s) {
        Err(HeaderFault::Float(NumberFault::Empty))
    } else if num > u64::MAX {
        Err(HeaderFault::Float(NumberFault::PosOverflow))
    } else if !(num_end(s) < s.len() && s[num_end(s)] == ':') {
        Err(HeaderFault::Malformed)
    } else if den_end(s) == num_end(s) + 1 {
        Err(HeaderFault::Float(NumberFault::Empty))
    } else if den > u64::MAX {
        Err(HeaderFault::Float(NumberFault::PosOverflow))
    } else {
        Ok((width as u32, height as u32, FrameRate { num: num as u64, den: den as u64 }))
    }
}

/// `e` is the error that reports `fault` for the line `src`.
pub open spec fn header_error(e: FvideoServerError, fault: HeaderFault, src: Seq<char>) -> bool {
    match fault {
        HeaderFault::Malformed => e matches FvideoServerError::ParseY4MError(m) && m@ == src,
        HeaderFault::Int(k) => e == FvideoServerError::ParseIntError(k),
        HeaderFault::Float(k) => e == FvideoServerError::ParseFloatError(k),
    }
}

/// Tells whether `v` starts with the magic word.
fn starts_with_magic(v: &Vec<char>) -> (b: bool)
    ensures
        b == (v.len() >= 9 && v@.subrange(0, 9) == magic()),
{
    if v.len() < 9 {
        return false;
    }
    let b = v[0] == 'Y' && v[1] == 'U' && v[2] == 'V' && v[3] == '4' && v[4] == 'M' && v[5] == 'P'
        && v[6] == 'E' && v[7] == 'G' && v[8] == '2';
    proof {
        if b {
            assert(v@.subrange(0, 9) =~= magic());
        } else {
            let m = v@.subrange(0, 9);
            assert(m[0] == v[0] && m[1] == v[1] && m[2] == v[2] && m[3] == v[3] && m[4] == v[4]
                && m[5] == v[5] && m[6] == v[6] && m[7] == v[7] && m[8] == v[8]);
        }
    }
    b
}

/// Reads a tag letter and the digits after it, where `at` holds the white
/// space before the tag. Gives the position after the digits.
fn scan_field(v: &Vec<char>, at: usize, tag: char) -> (r: Option<usize>)
    requires
        at < v.len(),
    ensures
        r matches Some(end) ==> {
            &&& is_space(v[at as int])
            &&& at + 1 < v.len()
            &&& v[at + 1] == tag
            &&& end == run_end(v@, at + 2, CharClass::Digit)
            &&& at + 2 <= end <= v.len()
        },
        r is None ==> !(is_space(v[at as int]) && at + 1 < v.len() && v[at + 1] == tag),
{
    if !has_class(CharClass::Space, v[at]) {
        return None;
    }
    if v.len() - at < 2 || v[at + 1] != tag {
        return None;
    }
    Some(scan_run(v, at + 2, CharClass::Digit))
}

/// Parses the width, height and frame rate from a Y4M header line.
///
/// The frame rate is returned as the ratio that the header gives. A line that
/// does not have the shape of a header, or whose frame rate lacks the colon,
/// is handed back in `ParseY4MError`; a width or height above `u32::MAX` gives
/// `ParseIntError`; an empty term of the frame rate, or one above `u64::MAX`,
/// gives `ParseFloatError`.
pub fn parse_y4m_header(src: &str) -> (r: Result<(u32, u32, FrameRate), FvideoServerError>)
    ensures
        match y4m_header(src@) {
            Ok(v) => r == Ok::<(u32, u32, FrameRate), FvideoServerError>(v),
            Err(fault) => r matches Err(e) && header_error(e, fault, src@),
        },
{
    let v = chars_of(src);
    let ghost s = v@;
    if !starts_with_magic(&v) || v.len() < 11 {
        return Err(FvideoServerError::ParseY4MError(src.to_owned()));
    }
    let w_end = match scan_field(&v, 9, 'W') {
        Some(e) => e,
        None => {
            return Err(FvideoServerError::ParseY4MError(src.to_owned()));
        },
    };
    if w_end == 11 || w_end >= v.len() {
        return Err(FvideoServerError::ParseY4MError(src.to_owned()));
    }
    let h_end = match scan_field(&v, w_end, 'H') {
        Some(e) => e,
        None => {
            return Err(FvideoServerError::ParseY4MError(src.to_owned()));
        },
    };
    if h_end == w_end + 2 || h_end >= v.len() {
        return Err(FvideoServerError::ParseY4MError(src.to_owned()));
    }
    let n_end = match scan_field(&v, h_end, 'F') {
        Some(e) => e,
        None => {
            return Err(FvideoServerError::ParseY4MError(src.to_owned()));
        },
    };
    let r_start = h_end + 2;
    if r_start >= v.len() || !has_class(CharClass::DigitOrColon, v[r_start]) {
        return Err(FvideoServerError::ParseY4MError(src.to_owned()));
    }
    assert(header_shape(s));
    proof {
        lemma_run_end(s, 11, CharClass::Digit);
        lemma_run_end(s, w_end + 2, CharClass::Digit);
        lemma_run_end(s, r_start as int, CharClass::Digit);
    }
    let width = match parse_decimal(&v, 11, w_end, 0xffff_ffff) {
        Some(w) => w as u32,
        None => {
            return Err(FvideoServerError::ParseIntError(NumberFault::PosOverflow));
        },
    };
    let height = match parse_decimal(&v, w_end + 2, h_end, 0xffff_ffff) {
        Some(h) => h as u32,
        None => {
            return Err(FvideoServerError::ParseIntError(NumberFault::PosOverflow));
        },
    };
    if n_end == r_start {
        return Err(FvideoServerError::ParseFloatError(NumberFault::Empty));
    }
    let num = match parse_decimal(&v, r_start, n_end, u64::MAX) {
        Some(n) => n,
        None => {
            return Err(FvideoServerError::ParseFloatError(NumberFault::PosOverflow));
        },
    };
    if n_end >= v.len() || v[n_end] != ':' {
        return Err(FvideoServerError::ParseY4MError(src.to_owned()));
    }
    let d_end = scan_run(&v, n_end + 1, CharClass::Digit);
    if d_end == n_end + 1 {
        return Err(FvideoServerError::ParseFloatError(NumberFault::Empty));
    }
    proof {
        lemma_run_end(s, n_end + 1, CharClass::Digit);
    }
    let den = match parse_decimal(&v, n_end + 1, d_end, u64::MAX) {
        Some(d) => d,
        None => {
            return Err(FvideoServerError::ParseFloatError(NumberFault::PosOverflow));
        },
    };
    Ok((width, height, FrameRate { num, den }))
}

} // verus!

//! Eye samples in the text form of SR Research's ASC files.
//!
//! A sample line holds, after optional white space, the time in
//! milliseconds and three numbers with exactly one decimal each (x, y and
//! pupil size), separated by white space and followed by white space and at
//! least one full stop. Every other line of a trace is something else.

use vstd::prelude::*;
use crate::text::{
    chars_of, decimal_value, has_class, is_digit, lemma_run_end, parse_decimal, run_end,
    scan_run, CharClass, NumberFault,
};

verus! {

/// What can go wrong when reading a trace.
#[derive(Debug)]
pub enum AscParserError {
    /// The line is no sample; it is kept as the message.
    UnrecognizedString(String),
    /// The time is no `u32`.
    ParseIntError(NumberFault),
    /// A position or the pupil size is too large.
    ParseFloatError(NumberFault),
    /// Reading the trace failed; the message is the reader's.
    IoError(String),
}

/// A single eye sample of one eye. Positions and pupil size are held in
/// tenths, which is the precision of the text form.
#[derive(Copy, Clone, Debug, PartialEq, Eq, Structural)]
pub struct EyeSample {
    /// Time of the sample in milliseconds.
    pub time: u32,
    /// Horizontal position in tenths of a pixel.
    pub x: u64,
    /// Vertical position in tenths of a pixel.
    pub y: u64,
    /// Pupil size in tenths.
    pub p: u64,
}

/// Why a line gives no sample.
pub enum LineFault {
    /// The line does not have the shape of a sample.
    Unrecognized,
    /// The time is above `u32::MAX`.
    Int(NumberFault),
    /// A one-decimal number is above `u64::MAX` tenths.
    Float(NumberFault),
}

/// Start of the one-decimal number that follows the field ending at `prev`.
pub open spec fn tenths_start(s: Seq<char>, prev: int) -> int {
    run_end(s, prev, CharClass::Space)
}

/// Position of the decimal point of the number that follows `prev`.
pub open spec fn tenths_point(s: Seq<char>, prev: int) -> int {
    run_end(s, tenths_start(s, prev), CharClass::Digit)
}

/// Position after the one-decimal number that follows `prev`.
pub open spec fn tenths_end(s: Seq<char>, prev: int) -> int {
    tenths_point(s, prev) + 2
}

/// White space, then digits, a full stop and one digit follow `prev`.
pub open spec fn tenths_ok(s: Seq<char>, prev: int) -> bool {
    &&& 0 <= prev < tenths_start(s, prev)
    &&& tenths_start(s, prev) < tenths_point(s, prev)
    &&& tenths_point(s, prev) + 1 < s.len()
    &&& s[tenths_point(s, prev)] == '.'
    &&& is_digit(s[tenths_point(s, prev) + 1])
}

/// The number that follows `prev`, in tenths.
pub open spec fn tenths_value(s: Seq<char>, prev: int) -> nat {
    decimal_value(s.subrange(tenths_start(s, prev), tenths_point(s, prev))) * 10 + (s[tenths_point(
        s,
        prev,
    ) + 1] as u32 - 0x30) as nat
}

/// Start of the time field.
pub open spec fn time_start(s: Seq<char>) -> int {
    run_end(s, 0, CharClass::Space)
}

/// Position after the time field.
pub open spec fn time_end(s: Seq<char>) -> int {
    run_end(s, time_start(s), CharClass::Digit)
}

/// Position after the x field.
pub open spec fn x_end(s: Seq<char>) -> int {
    tenths_end(s, time_end(s))
}

/// Position after the y field.
pub open spec fn y_end(s: Seq<char>) -> int {
    tenths_end(s, x_end(s))
}

/// Position after the pupil field.
pub open spec fn p_end(s: Seq<char>) -> int {
    tenths_end(s, y_end(s))
}

/// `s` has the shape of a sample line.
pub open spec fn line_shape(s: Seq<char>) -> bool {
    &&& time_start(s) < time_end(s)
    &&& tenths_ok(s, time_end(s))
    &&& tenths_ok(s, x_end(s))
    &&& tenths_ok(s, y_end(s))
    &&& p_end(s) < run_end(s, p_end(s), CharClass::Space)
    &&& run_end(s, p_end(s), CharClass::Space) < s.len()
    &&& s[run_end(s, p_end(s), CharClass::Space)] == '.'
}

/// What a line of a trace holds: a sample, or the first fault met when reading
/// it from left to right.
pub open spec fn asc_line(s: Seq<char>) -> Result<EyeSample, LineFault> {
    let time = decimal_value(s.subrange(time_start(s), time_end(s)));
    let x = tenths_value(s, time_end(s));
    let y = tenths_value(s, x_end(s));
    let p = tenths_value(s, y_end(s));
    if !line_shape(s) {
        Err(LineFault::Unrecognized)
    } else if time > u32::MAX {
        Err(LineFault::Int(NumberFault::PosOverflow))
    } else if x > u64::MAX {
        Err(LineFault::Float(NumberFault::PosOverflow))
    } else if y > u64::MAX {
        Err(LineFault::Float(NumberFault::PosOverflow))
    } else if p > u64::MAX {
        Err(LineFault::Float(NumberFault::PosOverflow))
    } else {
        Ok(EyeSample { time: time as u32, x: x as u64, y: y as u64, p: p as u64 })
    }
}

/// The samples among the lines of a trace, in the order of the lines.
pub open spec fn asc_samples(lines: Seq<Seq<char>>) -> Seq<EyeSample>
    decreases lines.len(),
{
    if lines.len() == 0 {
        Seq::empty()
    } else {
        match asc_line(lines.last()) {
            Ok(sample) => asc_samples(lines.drop_last()).push(sample),
            Err(_) => asc_samples(lines.drop_last()),
        }
    }
}

/// Finds the one-decimal number that follows the field ending at `prev`.
/// Gives its start and the position of its decimal point.
fn scan_tenths(v: &Vec<char>, prev: usize) -> (r: Option<(usize, usize)>)
    requires
        prev <= v.len(),
    ensures
        r is Some == tenths_ok(v@, prev as int),
        r matches Some((start, point)) ==> {
            &&& start == tenths_start(v@, prev as int)
            &&& point == tenths_point(v@, prev as int)
            &&& prev < start < point
            &&& point + 1 < v.len()
        },
{
    let start = scan_run(v, prev, CharClass::Space);
    let point = scan_run(v, start, CharClass::Digit);
    if start == prev || point == start {
        return None;
    }
    if v.len() - point < 2 || v[point] != '.' || !has_class(CharClass::Digit, v[point + 1]) {
        return None;
    }
    Some((start, point))
}

/// Reads the one-decimal number with the given start and decimal point, in
/// tenths. Gives `None` exactly where it is above `u64::MAX`.
fn parse_tenths(v: &Vec<char>, prev: usize, start: usize, point: usize) -> (r: Option<u64>)
    requires
        tenths_ok(v@, prev as int),
        start == tenths_start(v@, prev as int),
        point == tenths_point(v@, prev as int),
        prev <= v.len(),
    ensures
        r == if tenths_value(v@, prev as int) <= u64::MAX {
            Some(tenths_value(v@, prev as int) as u64)
        } else {
            None
        },
{
    proof {
        lemma_run_end(v@, prev as int, CharClass::Space);
        lemma_run_end(v@, start as int, CharClass::Digit);
    }
    let d: u64 = (v[point + 1] as u32 - 0x30) as u64;
    match parse_decimal(v, start, point, (u64::MAX - d) / 10) {
        Some(whole) => Some(whole * 10 + d),
        None => None,
    }
}

impl EyeSample {
    /// Reads a sample from a line of a trace.
    ///
    /// A line that does not have the shape of a sample is handed back in
    /// `UnrecognizedString`; a time above `u32::MAX` gives `ParseIntError`; a
    /// position or pupil size above `u64::MAX` tenths gives `ParseFloatError`.
    pub fn from_str(s: &str) -> (r: Result<EyeSample, AscParserError>)
        ensures
            match asc_line(s@) {
                Ok(sample) => r == Ok::<EyeSample, AscParserError>(sample),
                Err(LineFault::Unrecognized) => r matches Err(
                    AscParserError::UnrecognizedString(m),
                ) && m@ == s@,
                Err(LineFault::Int(k)) => r == Err::<EyeSample, AscParserError>(
                    AscParserError::ParseIntError(k),
                ),
                Err(LineFault::Float(k)) => r == Err::<EyeSample, AscParserError>(
                    AscParserError::ParseFloatError(k),
                ),
            },
    {
        let v = chars_of(s);
        let t_start = scan_run(&v, 0, CharClass::Space);
        let t_end = scan_run(&v, t_start, CharClass::Digit);
        if t_end == t_start {
            return Err(AscParserError::UnrecognizedString(s.to_owned()));
        }
        let (x_start, x_point) = match scan_tenths(&v, t_end) {
            Some(f) => f,
            None => {
                return Err(AscParserError::UnrecognizedString(s.to_owned()));
            },
        };
        let (y_start, y_point) = match scan_tenths(&v, x_point + 2) {
            Some(f) => f,
            None => {
                return Err(AscParserError::UnrecognizedString(s.to_owned()));
            },
        };
        let (p_start, p_point) = match scan_tenths(&v, y_point + 2) {
            Some(f) => f,
            None => {
                return Err(AscParserError::UnrecognizedString(s.to_owned()));
            },
        };
        let dots = scan_run(&v, p_point + 2, CharClass::Space);
        if dots == p_point + 2 || dots >= v.len() || v[dots] != '.' {
            return Err(AscParserError::UnrecognizedString(s.to_owned()));
        }
        assert(line_shape(v@));
        proof {
            lemma_run_end(v@, t_start as int, CharClass::Digit);
        }
        let time = match parse_decimal(&v, t_start, t_end, 0xffff_ffff) {
            Some(t) => t as u32,
            None => {
                return Err(AscParserError::ParseIntError(NumberFault::PosOverflow));
            },
        };
        let x = match parse_tenths(&v, t_end, x_start, x_point) {
            Some(n) => n,
            None => {
                return Err(AscParserError::ParseFloatError(NumberFault::PosOverflow));
            },
        };
        let y = match parse_tenths(&v, x_point + 2, y_start, y_point) {
            Some(n) => n,
            None => {
                return Err(AscParserError::ParseFloatError(NumberFault::PosOverflow));
            },
        };
        let p = match parse_tenths(&v, y_point + 2, p_start, p_point) {
            Some(n) => n,
            None => {
                return Err(AscParserError::ParseFloatError(NumberFault::PosOverflow));
            },
        };
        Ok(EyeSample { time, x, y, p })
    }
}

/// Picks the samples out of the lines of a trace. Lines that are no samples
/// are passed over.
pub fn parse_asc(lines: &Vec<String>) -> (samples: Vec<EyeSample>)
    ensures
        samples@ == asc_samples(lines@.map_values(|l: String| l@)),
{
    let ghost texts = lines@.map_values(|l: String| l@);
    let mut samples: Vec<EyeSample> = Vec::new();
    let mut i: usize = 0;
    proof {
        assert(texts.take(0) =~= Seq::<Seq<char>>::empty());
    }
    while i < lines.len()
        invariant
            i <= lines.len(),
            texts == lines@.map_values(|l: String| l@),
            samples@ == asc_samples(texts.take(i as int)),
        decreases lines.len() - i,
    {
        proof {
            assert(texts.take(i + 1).drop_last() =~= texts.take(i as int));
            assert(texts.take(i + 1).last() == lines[i as int]@);
        }
        match EyeSample::from_str(lines[i].as_str()) {
            Ok(sample) => {
                samples.push(sample);
            },
            Err(_) => {},
        }
        i += 1;
    }
    proof {
        assert(texts.take(lines.len() as int) =~= texts);
    }
    samples
}

} // verus!

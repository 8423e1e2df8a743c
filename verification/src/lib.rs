//! Core logic of a gaze-driven foveated video pipeline.
//!
//! The crate holds what the pipeline decides and computes: the text formats it
//! reads, the gaze queue and its statistics, the crop of the foveal region,
//! the pacing of source frames, the encoders' trigger logic, the tracker
//! session scripts and the user-study state machine. Devices, codecs, files
//! and clocks stay outside; they hand in plain values and carry out the
//! actions that the functions here return.

use vstd::prelude::*;

pub mod ascparser;
pub mod client;
pub mod dummyserver;
pub mod eyelink;
pub mod falloff;
pub mod gaze;
pub mod graphics;
pub mod options;
pub mod pacing;
pub mod picture;
pub mod plane;
pub mod probe;
pub mod server;
pub mod text;
pub mod tracker;
pub mod twostreamserver;
pub mod user_study;
pub mod x264;
pub mod y4m;

pub use crate::text::NumberFault;
pub use crate::y4m::{parse_y4m_header, FrameRate};

verus! {

/// Name of the eye-trace file on the tracker host.
pub const EDF_FILE: &'static str = "test.edf";

/// A constant rate factor in thousandths.
#[derive(Copy, Clone, Debug, PartialEq, Eq, Structural)]
pub struct Crf {
    pub milli: u32,
}

/// A pair of coordinates used for gaze statistics.
#[derive(Copy, Clone, Debug, PartialEq, Eq, Structural)]
pub struct Coords {
    pub x: u64,
    pub y: u64,
}

/// Width and height of a picture in pixels.
#[derive(Copy, Clone, Debug, PartialEq, Eq, Structural)]
pub struct Dims {
    pub width: u32,
    pub height: u32,
}

/// A gaze sample.
#[derive(Copy, Clone, Debug, PartialEq, Eq, Structural)]
pub struct GazeSample {
    /// Time of the sample, in nanoseconds on the session's monotonic clock.
    pub time: u64,
    /// Sequence number given by the producer.
    pub seqno: u64,
    /// Display width in pixels.
    pub d_width: u32,
    /// Display height in pixels.
    pub d_height: u32,
    /// Horizontal position in display pixels.
    pub d_x: u32,
    /// Vertical position in display pixels.
    pub d_y: u32,
    /// Horizontal position in video pixels.
    pub p_x: u32,
    /// Vertical position in video pixels.
    pub p_y: u32,
    /// Horizontal position in macroblocks.
    pub m_x: u32,
    /// Vertical position in macroblocks.
    pub m_y: u32,
}

/// How the periphery is degraded.
#[derive(Copy, Clone, Debug, PartialEq, Eq, Structural)]
pub enum FoveationAlg {
    SquareStep,
    Gaussian,
    TwoStream,
}

/// Where gaze samples come from.
#[derive(Copy, Clone, Debug, PartialEq, Eq, Structural)]
pub enum GazeSource {
    Mouse,
    Eyelink,
}

/// What can go wrong on the encoding side.
#[derive(Debug)]
pub enum FvideoServerError {
    /// A field of a header is no integer of its type.
    ParseIntError(NumberFault),
    /// A field of a header is no frame-rate term.
    ParseFloatError(NumberFault),
    /// A dimension does not fit the integer type that a codec asks for.
    TryFromIntError,
    /// The text is no Y4M header; it is kept as the message.
    ParseY4MError(String),
    /// Reading the input failed; the message is the reader's.
    IoError(String),
    /// The H.264 encoder reported a fault.
    X264Error(String),
    /// The scaler reported a fault.
    FfmpegError(String),
    /// The encoder cannot go on, or has finished.
    EncoderError(String),
    /// The chosen algorithm does not suit this encoder.
    InvalidAlgError(String),
    /// The two-stream encoder was given settings it cannot use.
    TwoStreamError(String),
}

/// What can go wrong on the display side.
#[derive(Debug)]
pub enum FvideoClientError {
    ParseIntError(NumberFault),
    ParseFloatError(NumberFault),
    /// The tracker reported a fault; the message describes it.
    EyelinkError(String),
}

/// Options for the eye tracker.
#[derive(Copy, Clone, Debug, PartialEq, Eq, Structural)]
pub struct EyelinkOptions {
    pub calibrate: bool,
    pub record: bool,
}

/// Options for the display of the video.
#[derive(Debug)]
pub struct DisplayOptions {
    /// Artificial delay of the gaze, in milliseconds.
    pub delay: u64,
    /// Filter chain applied to the decoded background.
    pub filter: String,
}

/// Encoded output of an H.264 encoder: the bytes of one or more NAL units.
#[derive(Clone, Debug)]
pub struct NalData {
    pub vec: Vec<u8>,
}

impl NalData {
    /// The bytes of the units.
    pub fn as_bytes(&self) -> (bytes: &[u8])
        ensures
            bytes@ == self.vec@,
    {
        self.vec.as_slice()
    }
}

/// What one call of an encoder gives: the foreground with the gaze that it
/// was cropped at, and the background.
pub type EncodedFrames = (Option<(NalData, GazeSample)>, Option<NalData>);

/// The distance between two coordinates.
pub open spec fn distance(a: u32, b: u32) -> int {
    if a >= b {
        a - b
    } else {
        b - a
    }
}

/// The video positions of two samples differ by more than `thresh` pixels
/// along an axis.
pub open spec fn moved(a: GazeSample, b: GazeSample, thresh: int) -> bool {
    distance(a.p_x, b.p_x) > thresh || distance(a.p_y, b.p_y) > thresh
}

/// The distance between two coordinates.
pub fn coordinate_distance(a: u32, b: u32) -> (d: u32)
    ensures
        d == distance(a, b),
{
    if a >= b {
        a - b
    } else {
        b - a
    }
}

/// Tells whether the video positions of two samples differ by more than
/// `thresh` pixels along an axis.
pub fn gaze_moved(a: &GazeSample, b: &GazeSample, thresh: i32) -> (r: bool)
    ensures
        r == moved(*a, *b, thresh as int),
{
    let dx = coordinate_distance(a.p_x, b.p_x);
    let dy = coordinate_distance(a.p_y, b.p_y);
    dx as i64 > thresh as i64 || dy as i64 > thresh as i64
}

/// The side of the foveal square for a fovea of `fovea` macroblocks in a
/// picture of the given height: the macroblocks' pixels, but no more than the
/// height, rounded up to an even number.
pub open spec fn fovea_pixels(fovea: u32, height: u32) -> int {
    let side = if fovea * 16 > height {
        height as int
    } else {
        fovea * 16
    };
    side + side % 2
}

/// The side of the foveal square in pixels. There is none for a fovea of 0
/// macroblocks or where the side is not a `u32`.
pub fn fovea_size(fovea: u32, height: u32) -> (r: Option<u32>)
    ensures
        r == if fovea == 0 || fovea_pixels(fovea, height) > u32::MAX {
            None
        } else {
            Some(fovea_pixels(fovea, height) as u32)
        },
        r matches Some(side) ==> side % 2 == 0,
{
    if fovea == 0 {
        return None;
    }
    let wide: u64 = fovea as u64 * 16;
    let side: u64 = if wide > height as u64 {
        height as u64
    } else {
        wide
    };
    let even: u64 = side + side % 2;
    if even > u32::MAX as u64 {
        None
    } else {
        Some(even as u32)
    }
}

} // verus!

//! Foveated video encoding with two streams.
//!
//! The background stream is the whole source picture scaled down; the
//! foreground stream is a square of the source at full resolution, centred on
//! the gaze. This module decides, for each gaze sample, which of the two
//! streams gets a new picture, and makes the foreground picture. Reading the
//! source, scaling the background and the H.264 encoding are the caller's.

use vstd::prelude::*;
use crate::pacing::{advance_pts, due, next_pts, FrameClock};
use crate::picture::{crop_centre, crop_origin, picture_cropped, Picture, PictureView};
use crate::y4m::{header_error, parse_y4m_header, y4m_header};
use crate::{
    fovea_pixels, fovea_size, gaze_moved, moved, Dims, EncodedFrames, FvideoServerError,
    GazeSample, NalData,
};

verus! {

/// How far the gaze has to move, in video pixels along an axis, for a new
/// foreground picture between two source frames.
pub const DIFF_THRESH: i32 = 10;

/// A foreground picture that is due.
#[derive(Copy, Clone, Debug, PartialEq, Eq, Structural)]
pub struct Foreground {
    /// Presentation time of the picture.
    pub timestamp: i64,
    /// The gaze at which the picture was cropped.
    pub gaze: GazeSample,
}

/// What the encoders are to do for one gaze sample.
#[derive(Copy, Clone, Debug, PartialEq, Eq, Structural)]
pub struct TwoStreamPlan {
    /// Presentation time of the background picture to scale and encode, if
    /// the background is due.
    pub background: Option<i64>,
    /// The foreground picture to encode, if the foreground is due.
    pub foreground: Option<Foreground>,
}

/// Encoder state for two streams.
pub struct FvideoTwoStreamServer {
    /// Side of the foreground square in pixels.
    pub fovea: u32,
    /// Size of the background stream.
    pub rescale: Dims,
    /// The current source picture.
    pub orig_pic: Picture,
    /// The foreground picture.
    pub fg_pic: Picture,
    pub width: u32,
    pub height: u32,
    pub clock: FrameClock,
    /// The gaze at which the foreground was last found to have moved.
    pub last_gaze_sample: GazeSample,
    /// Presentation time of the next foreground picture.
    pub timestamp: i64,
}

/// The gaze that an encoder starts from.
pub open spec fn origin_gaze() -> GazeSample {
    GazeSample {
        time: 0,
        seqno: 0,
        d_width: 0,
        d_height: 0,
        d_x: 0,
        d_y: 0,
        p_x: 0,
        p_y: 0,
        m_x: 0,
        m_y: 0,
    }
}

/// The gaze can be moved by one pixel along each axis.
pub open spec fn croppable(gaze: GazeSample) -> bool {
    gaze.p_x < u32::MAX && gaze.p_y < u32::MAX
}

/// Whether the foreground is due for a gaze sample: the source has moved on,
/// or the gaze is more than `DIFF_THRESH` away from where it last was found
/// to have moved.
pub open spec fn foreground_due(last: GazeSample, gaze: GazeSample, advanced: bool) -> bool {
    advanced || moved(last, gaze, DIFF_THRESH as int)
}

/// The gaze as the crop leaves it: moved with the window to even coordinates.
pub open spec fn cropped_gaze(gaze: GazeSample, fovea: u32) -> GazeSample {
    GazeSample {
        p_x: crop_centre(gaze.p_x, fovea) as u32,
        p_y: crop_centre(gaze.p_y, fovea) as u32,
        ..gaze
    }
}

/// The plan for a gaze sample.
pub open spec fn two_stream_plan(
    last: GazeSample,
    timestamp: i64,
    fovea: u32,
    gaze: GazeSample,
    advanced: bool,
) -> TwoStreamPlan {
    TwoStreamPlan {
        background: if advanced {
            Some(timestamp)
        } else {
            None
        },
        foreground: if foreground_due(last, gaze, advanced) {
            Some(Foreground { timestamp, gaze: cropped_gaze(gaze, fovea) })
        } else {
            None
        },
    }
}

impl FvideoTwoStreamServer {
    /// The pictures have the sizes that the state names, and the clock is
    /// sound.
    pub open spec fn wf(&self) -> bool {
        &&& self.clock.wf()
        &&& self.orig_pic.wf()
        &&& self.orig_pic@.width == self.width
        &&& self.orig_pic@.height == self.height
        &&& self.fg_pic.wf()
        &&& self.fg_pic@.width == self.fovea
        &&& self.fg_pic@.height == self.fovea
    }

    /// Makes an encoder for the source whose header line is `header`, with a
    /// fovea of `fovea` macroblocks and a background of size `rescale`.
    ///
    /// It fails with the header's error where the line is no usable header,
    /// with `TwoStreamError` for a fovea of 0, with `TryFromIntError` where
    /// the side of the fovea is no `u32`, and with `X264Error` where a picture
    /// does not fit in memory.
    pub fn new(fovea: u32, rescale: Dims, header: &str) -> (r: Result<
        FvideoTwoStreamServer,
        FvideoServerError,
    >)
        ensures
            match y4m_header(header@) {
                Err(fault) => r matches Err(e) && header_error(e, fault, header@),
                Ok((width, height, rate)) => if fovea == 0 {
                    r matches Err(FvideoServerError::TwoStreamError(m)) && m@
                        == "TwoStream requires fovea to be non-zero."@
                } else if fovea_pixels(fovea, height) > u32::MAX {
                    r matches Err(FvideoServerError::TryFromIntError)
                } else if width as int * height as int > usize::MAX || fovea_pixels(fovea, height)
                    * fovea_pixels(fovea, height) > usize::MAX {
                    r matches Err(FvideoServerError::X264Error(m)) && m@ == "Allocation Failure"@
                } else {
                    r matches Ok(s) && {
                        &&& s.wf()
                        &&& s.fovea == fovea_pixels(fovea, height)
                        &&& s.rescale == rescale
                        &&& s.width == width
                        &&& s.height == height
                        &&& s.clock == (FrameClock { rate, frame_cnt: 0, last_frame_time: 0 })
                        &&& s.last_gaze_sample == origin_gaze()
                        &&& s.timestamp == 0
                    }
                },
            },
    {
        let (width, height, rate) = match parse_y4m_header(header) {
            Ok(v) => v,
            Err(e) => {
                return Err(e);
            },
        };
        if fovea == 0 {
            return Err(
                FvideoServerError::TwoStreamError(
                    "TwoStream requires fovea to be non-zero.".to_owned(),
                ),
            );
        }
        let side = match fovea_size(fovea, height) {
            Some(side) => side,
            None => {
                return Err(FvideoServerError::TryFromIntError);
            },
        };
        let orig_pic = match Picture::new(width, height) {
            Some(p) => p,
            None => {
                return Err(FvideoServerError::X264Error("Allocation Failure".to_owned()));
            },
        };
        let fg_pic = match Picture::new(side, side) {
            Some(p) => p,
            None => {
                return Err(FvideoServerError::X264Error("Allocation Failure".to_owned()));
            },
        };
        Ok(
            FvideoTwoStreamServer {
                fovea: side,
                rescale,
                orig_pic,
                fg_pic,
                width,
                height,
                clock: FrameClock::new(rate),
                last_gaze_sample: GazeSample {
                    time: 0,
                    seqno: 0,
                    d_width: 0,
                    d_height: 0,
                    d_x: 0,
                    d_y: 0,
                    p_x: 0,
                    p_y: 0,
                    m_x: 0,
                    m_y: 0,
                },
                timestamp: 0,
            },
        )
    }

    /// Width of the source in pixels.
    pub fn width(&self) -> (w: u32)
        ensures
            w == self.width,
    {
        self.width
    }

    /// Height of the source in pixels.
    pub fn height(&self) -> (h: u32)
        ensures
            h == self.height,
    {
        self.height
    }

    /// Tells whether the next source frame is to be read `elapsed`
    /// nanoseconds after the start, and counts it if so.
    pub fn read_frame(&mut self, elapsed: u64) -> (advanced: bool)
        requires
            old(self).wf(),
        ensures
            final(self).wf(),
            advanced == (old(self).clock.frame_cnt < u32::MAX && due(
                old(self).clock.rate,
                old(self).clock.frame_cnt as int,
                elapsed as int,
            )),
            final(self).clock == if advanced {
                FrameClock {
                    rate: old(self).clock.rate,
                    frame_cnt: (old(self).clock.frame_cnt + 1) as u32,
                    last_frame_time: elapsed,
                }
            } else {
                old(self).clock
            },
            final(self).fovea == old(self).fovea,
            final(self).rescale == old(self).rescale,
            final(self).orig_pic == old(self).orig_pic,
            final(self).fg_pic == old(self).fg_pic,
            final(self).width == old(self).width,
            final(self).height == old(self).height,
            final(self).last_gaze_sample == old(self).last_gaze_sample,
            final(self).timestamp == old(self).timestamp,
    {
        self.clock.tick(elapsed)
    }

    /// Takes the three planes of the source frame that was read. The planes
    /// must have the sizes of the source picture's planes; where one has not,
    /// the picture is left as it is and `IoError` is returned.
    pub fn load_frame(&mut self, y: &[u8], u: &[u8], v: &[u8]) -> (r: Result<
        (),
        FvideoServerError,
    >)
        requires
            old(self).wf(),
        ensures
            final(self).wf(),
            r is Ok == (y@.len() == old(self).orig_pic@.planes[0].len() && u@.len() == old(
                self).orig_pic@.planes[1].len() && v@.len() == old(self).orig_pic@.planes[2].len()),
            r is Ok ==> final(self).orig_pic@ == (PictureView {
                planes: seq![y@, u@, v@],
                ..old(self).orig_pic@
            }),
            r matches Err(e) ==> final(self).orig_pic@ == old(self).orig_pic@,
            r matches Err(FvideoServerError::IoError(m)) ==> m@ == "failed to fill whole buffer"@,
            r matches Err(e) ==> e is IoError,
            final(self).fovea == old(self).fovea,
            final(self).rescale == old(self).rescale,
            final(self).fg_pic == old(self).fg_pic,
            final(self).width == old(self).width,
            final(self).height == old(self).height,
            final(self).clock == old(self).clock,
            final(self).last_gaze_sample == old(self).last_gaze_sample,
            final(self).timestamp == old(self).timestamp,
    {
        let fits = match (
            self.orig_pic.as_slice(0),
            self.orig_pic.as_slice(1),
            self.orig_pic.as_slice(2),
        ) {
            (Ok(a), Ok(b), Ok(c)) => a.len() == y.len() && b.len() == u.len() && c.len()
                == v.len(),
            _ => false,
        };
        if !fits {
            return Err(FvideoServerError::IoError("failed to fill whole buffer".to_owned()));
        }
        let ghost before = self.orig_pic@;
        let _ = self.orig_pic.load_plane(0, y);
        let _ = self.orig_pic.load_plane(1, u);
        let _ = self.orig_pic.load_plane(2, v);
        proof {
            assert(self.orig_pic@.planes =~= seq![y@, u@, v@]);
        }
        Ok(())
    }

    /// Plans the encoding for a gaze sample and makes the foreground picture.
    ///
    /// `advanced` tells whether a new source frame was loaded for this
    /// sample. The background is due exactly then. The foreground is due
    /// then, and whenever the gaze has moved more than `DIFF_THRESH` since it
    /// last was found to have moved; the foreground picture is then cropped
    /// from the source at the gaze. A gaze at the largest coordinate cannot
    /// be cropped and gives `TwoStreamError`.
    pub fn encode_frame(&mut self, gaze: GazeSample, advanced: bool) -> (r: Result<
        TwoStreamPlan,
        FvideoServerError,
    >)
        requires
            old(self).wf(),
        ensures
            final(self).wf(),
            final(self).fovea == old(self).fovea,
            final(self).rescale == old(self).rescale,
            final(self).orig_pic == old(self).orig_pic,
            final(self).width == old(self).width,
            final(self).height == old(self).height,
            final(self).clock == old(self).clock,
            foreground_due(old(self).last_gaze_sample, gaze, advanced) && !croppable(gaze) ==> {
                &&& r matches Err(FvideoServerError::TwoStreamError(m)) && m@
                    == "Gaze position out of range."@
                &&& final(self).fg_pic == old(self).fg_pic
                &&& final(self).last_gaze_sample == old(self).last_gaze_sample
                &&& final(self).timestamp == old(self).timestamp
            },
            !(foreground_due(old(self).last_gaze_sample, gaze, advanced) && !croppable(gaze)) ==> {
                &&& r == Ok::<TwoStreamPlan, FvideoServerError>(
                    two_stream_plan(
                        old(self).last_gaze_sample,
                        old(self).timestamp,
                        old(self).fovea,
                        gaze,
                        advanced,
                    ),
                )
                &&& final(self).last_gaze_sample == if moved(
                    old(self).last_gaze_sample,
                    gaze,
                    DIFF_THRESH as int,
                ) {
                    gaze
                } else {
                    old(self).last_gaze_sample
                }
            },
            !foreground_due(old(self).last_gaze_sample, gaze, advanced) ==> {
                &&& final(self).fg_pic == old(self).fg_pic
                &&& final(self).timestamp == old(self).timestamp
            },
            foreground_due(old(self).last_gaze_sample, gaze, advanced) && croppable(gaze) ==> {
                &&& final(self).timestamp == next_pts(old(self).timestamp)
                &&& final(self).fg_pic@.timestamp == old(self).timestamp
                &&& picture_cropped(
                    old(self).orig_pic@,
                    old(self).fg_pic@,
                    final(self).fg_pic@,
                    crop_origin(gaze.p_x, old(self).fovea),
                    crop_origin(gaze.p_y, old(self).fovea),
                )
            },
    {
        let gaze_changed = gaze_moved(&self.last_gaze_sample, &gaze, DIFF_THRESH);
        let fg_due = advanced || gaze_changed;
        if fg_due && (gaze.p_x == u32::MAX || gaze.p_y == u32::MAX) {
            return Err(FvideoServerError::TwoStreamError("Gaze position out of range.".to_owned()));
        }
        if gaze_changed {
            self.last_gaze_sample = gaze;
        }
        let background = if advanced {
            Some(self.timestamp)
        } else {
            None
        };
        let mut foreground = None;
        if fg_due {
            let mut cropped = gaze;
            let ghost before = self.fg_pic@;
            self.orig_pic.crop(&mut self.fg_pic, &mut cropped);
            let ghost mid = self.fg_pic@;
            self.fg_pic.set_timestamp(self.timestamp);
            foreground = Some(Foreground { timestamp: self.timestamp, gaze: cropped });
            self.timestamp = advance_pts(self.timestamp);
            proof {
                assert(self.fg_pic@.planes == mid.planes);
                assert forall|i: int| 0 <= i < 3 implies (#[trigger] self.fg_pic@.planes[i]).len()
                    == self.fg_pic@.plane_width(i) * self.fg_pic@.plane_height(i) by {
                    assert(mid.planes[i].len() == mid.plane_width(i) * mid.plane_height(i));
                }
            }
        }
        Ok(TwoStreamPlan { background, foreground })
    }
}

/// Puts the encoders' output for a plan into the form that the display takes:
/// the foreground goes with the gaze at which it was cropped. Output for a
/// stream that was not due is dropped.
pub fn pair_frames(plan: TwoStreamPlan, fg: Option<NalData>, bg: Option<NalData>) -> (frames:
    EncodedFrames)
    ensures
        frames.0 == match (plan.foreground, fg) {
            (Some(due), Some(nal)) => Some((nal, due.gaze)),
            _ => None,
        },
        frames.1 == if plan.background is Some {
            bg
        } else {
            None
        },
{
    let first = match (plan.foreground, fg) {
        (Some(due), Some(nal)) => Some((nal, due.gaze)),
        _ => None,
    };
    let second = if plan.background.is_some() {
        bg
    } else {
        None
    };
    (first, second)
}

} // verus!

//! Foveated video encoding with a single stream.
//!
//! The whole source picture is encoded, and the quantiser is raised away from
//! the gaze. This module paces the source, keeps the picture and makes, for
//! each picture, the table from which the quantiser offsets of its macroblocks
//! are derived. Reading the source and the H.264 encoding are the caller's.

use vstd::prelude::*;
use crate::falloff::{cell_value, offset_table, Shape};
use crate::pacing::{advance_pts, due, next_pts, FrameClock};
use crate::picture::{Picture, PictureView};
use crate::plane::at;
use crate::y4m::{header_error, parse_y4m_header, y4m_header};
use crate::{FoveationAlg, FvideoServerError, GazeSample};

verus! {

/// Encoder state for a single stream.
pub struct FvideoServer {
    /// Size of the foveal region; its meaning depends on the algorithm. 0
    /// and below switch foveation off.
    pub fovea: i32,
    pub alg: FoveationAlg,
    /// The current source picture.
    pub pic: Picture,
    pub width: u32,
    pub height: u32,
    pub clock: FrameClock,
    /// Presentation time of the next picture.
    pub timestamp: i64,
}

/// What the encoder is to do for one gaze sample.
#[derive(Debug)]
pub struct ServerPlan {
    /// Presentation time of the picture.
    pub timestamp: i64,
    /// The table for the quantiser offsets, one value for each macroblock,
    /// row by row; `None` where the picture is encoded without offsets.
    pub offsets: Option<Vec<u64>>,
}

/// The shape of the table for an algorithm: squared distances for the
/// Gaussian, a step at `fovea` macroblocks otherwise.
pub open spec fn table_shape(alg: FoveationAlg, fovea: i32) -> Shape {
    if alg == FoveationAlg::Gaussian {
        Shape::Distance
    } else {
        Shape::Step(fovea)
    }
}

impl FvideoServer {
    /// The picture has the size that the state names, the clock is sound,
    /// and the algorithm is one for a single stream.
    pub open spec fn wf(&self) -> bool {
        &&& self.clock.wf()
        &&& self.pic.wf()
        &&& self.pic@.width == self.width
        &&& self.pic@.height == self.height
        &&& self.alg != FoveationAlg::TwoStream
    }

    /// Makes an encoder for the source whose header line is `header`.
    ///
    /// It fails with `InvalidAlgError` for the two-stream algorithm, with
    /// the header's error where the line is no usable header, and with
    /// `X264Error` where the picture does not fit in memory.
    pub fn new(fovea: i32, alg: FoveationAlg, header: &str) -> (r: Result<
        FvideoServer,
        FvideoServerError,
    >)
        ensures
            alg == FoveationAlg::TwoStream ==> (r matches Err(
                FvideoServerError::InvalidAlgError(m),
            ) && m@ == "This server only supports a single stream."@),
            alg != FoveationAlg::TwoStream ==> match y4m_header(header@) {
                Err(fault) => r matches Err(e) && header_error(e, fault, header@),
                Ok((width, height, rate)) => if width as int * height as int > usize::MAX {
                    r matches Err(FvideoServerError::X264Error(m)) && m@ == "Allocation Failure"@
                } else {
                    r matches Ok(s) && {
                        &&& s.wf()
                        &&& s.fovea == fovea
                        &&& s.alg == alg
                        &&& s.width == width
                        &&& s.height == height
                        &&& s.clock == (FrameClock { rate, frame_cnt: 0, last_frame_time: 0 })
                        &&& s.timestamp == 0
                    }
                },
            },
    {
        if let FoveationAlg::TwoStream = alg {
            return Err(
                FvideoServerError::InvalidAlgError(
                    "This server only supports a single stream.".to_owned(),
                ),
            );
        }
        let (width, height, rate) = match parse_y4m_header(header) {
            Ok(v) => v,
            Err(e) => {
                return Err(e);
            },
        };
        let pic = match Picture::new(width, height) {
            Some(p) => p,
            None => {
                return Err(FvideoServerError::X264Error("Allocation Failure".to_owned()));
            },
        };
        Ok(FvideoServer { fovea, alg, pic, width, height, clock: FrameClock::new(rate), timestamp: 0 })
    }

    /// Width of the source in pixels.
    pub fn width(&self) -> (w: u32)
        ensures
            w == self.width,
    {
        self.width
    }

    /// Height of the source in pixels.
    pub fn height(&self) -> (h: u32)
        ensures
            h == self.height,
    {
        self.height
    }

    /// Tells whether the next source frame is to be read `elapsed`
    /// nanoseconds after the start, and counts it if so.
    pub fn read_frame(&mut self, elapsed: u64) -> (advanced: bool)
        requires
            old(self).wf(),
        ensures
            final(self).wf(),
            advanced == (old(self).clock.frame_cnt < u32::MAX && due(
                old(self).clock.rate,
                old(self).clock.frame_cnt as int,
                elapsed as int,
            )),
            final(self).clock == if advanced {
                FrameClock {
                    rate: old(self).clock.rate,
                    frame_cnt: (old(self).clock.frame_cnt + 1) as u32,
                    last_frame_time: elapsed,
                }
            } else {
                old(self).clock
            },
            final(self).fovea == old(self).fovea,
            final(self).alg == old(self).alg,
            final(self).pic == old(self).pic,
            final(self).width == old(self).width,
            final(self).height == old(self).height,
            final(self).timestamp == old(self).timestamp,
    {
        self.clock.tick(elapsed)
    }

    /// Takes the three planes of the source frame that was read. The planes
    /// must have the sizes of the picture's planes; where one has not, the
    /// picture is left as it is and `IoError` is returned.
    pub fn load_frame(&mut self, y: &[u8], u: &[u8], v: &[u8]) -> (r: Result<
        (),
        FvideoServerError,
    >)
        requires
            old(self).wf(),
        ensures
            final(self).wf(),
            r is Ok == (y@.len() == old(self).pic@.planes[0].len() && u@.len() == old(
                self).pic@.planes[1].len() && v@.len() == old(self).pic@.planes[2].len()),
            r is Ok ==> final(self).pic@ == (PictureView {
                planes: seq![y@, u@, v@],
                ..old(self).pic@
            }),
            r matches Err(e) ==> final(self).pic@ == old(self).pic@,
            r matches Err(FvideoServerError::IoError(m)) ==> m@ == "failed to fill whole buffer"@,
            r matches Err(e) ==> e is IoError,
            final(self).fovea == old(self).fovea,
            final(self).alg == old(self).alg,
            final(self).width == old(self).width,
            final(self).height == old(self).height,
            final(self).clock == old(self).clock,
            final(self).timestamp == old(self).timestamp,
    {
        let fits = match (self.pic.as_slice(0), self.pic.as_slice(1), self.pic.as_slice(2)) {
            (Ok(a), Ok(b), Ok(c)) => a.len() == y.len() && b.len() == u.len() && c.len()
                == v.len(),
            _ => false,
        };
        if !fits {
            return Err(FvideoServerError::IoError("failed to fill whole buffer".to_owned()));
        }
        let _ = self.pic.load_plane(0, y);
        let _ = self.pic.load_plane(1, u);
        let _ = self.pic.load_plane(2, v);
        proof {
            assert(self.pic@.planes =~= seq![y@, u@, v@]);
        }
        Ok(())
    }

    /// Stamps the picture for the next encode and makes the table for its
    /// quantiser offsets.
    ///
    /// The first picture is encoded without offsets, and so is every picture
    /// where foveation is off. For the others the table holds one value for
    /// each macroblock of the picture: the square of its distance from the
    /// gaze for the Gaussian algorithm, and for the square step 0 inside the
    /// fovea and 1 outside. Where the table does not fit in memory the
    /// encoder is left as it is and `TryFromIntError` is returned.
    pub fn encode_frame(&mut self, gaze: GazeSample) -> (r: Result<ServerPlan, FvideoServerError>)
        requires
            old(self).wf(),
        ensures
            final(self).wf(),
            final(self).fovea == old(self).fovea,
            final(self).alg == old(self).alg,
            final(self).width == old(self).width,
            final(self).height == old(self).height,
            final(self).clock == old(self).clock,
            final(self).pic@.planes == old(self).pic@.planes,
            old(self).offsets_due() && (old(self).width / 16) * (old(self).height / 16)
                > usize::MAX ==> {
                &&& r matches Err(FvideoServerError::TryFromIntError)
                &&& final(self).timestamp == old(self).timestamp
                &&& final(self).pic@ == old(self).pic@
            },
            !(old(self).offsets_due() && (old(self).width / 16) * (old(self).height / 16)
                > usize::MAX) ==> {
                &&& r matches Ok(plan) && {
                    &&& plan.timestamp == old(self).timestamp
                    &&& plan.offsets is Some == old(self).offsets_due()
                    &&& plan.offsets matches Some(table) ==> {
                        &&& table@.len() == (old(self).width / 16) * (old(self).height / 16)
                        &&& forall|i: int, j: int|
                            0 <= i < old(self).width / 16 && 0 <= j < old(self).height / 16
                                ==> #[trigger] table@[at((old(self).width / 16) as int, j, i)]
                                == cell_value(
                                table_shape(old(self).alg, old(self).fovea),
                                gaze.m_x,
                                gaze.m_y,
                                i,
                                j,
                            )
                    }
                }
                &&& final(self).timestamp == next_pts(old(self).timestamp)
                &&& final(self).pic@.timestamp == old(self).timestamp
            },
    {
        let mut offsets = None;
        if self.fovea > 0 && self.timestamp > 0 {
            let shape = match self.alg {
                FoveationAlg::Gaussian => Shape::Distance,
                _ => Shape::Step(self.fovea),
            };
            match offset_table(self.width / 16, self.height / 16, gaze.m_x, gaze.m_y, shape) {
                Some(table) => {
                    offsets = Some(table);
                },
                None => {
                    return Err(FvideoServerError::TryFromIntError);
                },
            }
        }
        let ghost before = self.pic@;
        let timestamp = self.timestamp;
        self.pic.set_timestamp(timestamp);
        self.timestamp = advance_pts(timestamp);
        proof {
            assert forall|i: int| 0 <= i < 3 implies (#[trigger] self.pic@.planes[i]).len()
                == self.pic@.plane_width(i) * self.pic@.plane_height(i) by {
                assert(before.planes[i].len() == before.plane_width(i) * before.plane_height(i));
            }
        }
        Ok(ServerPlan { timestamp, offsets })
    }

    /// Whether the next picture is encoded with quantiser offsets: foveation
    /// is on and the picture is not the first.
    pub open spec fn offsets_due(&self) -> bool {
        self.fovea > 0 && self.timestamp > 0
    }
}

} // verus!

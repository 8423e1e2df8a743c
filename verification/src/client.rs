//! The compositing client.
//!
//! The client gathers gaze samples for the encoder and shows what the
//! encoder sends back: the background stretched over the video rectangle and
//! the foreground on top of it at the gaze, blended in at its edges. This
//! module holds the client's bookkeeping and geometry. Decoding, colour
//! conversion and drawing are the caller's.

use vstd::prelude::*;
use crate::falloff::{centre_distance, lemma_centre_distance_fits, offset_table, Shape};
use crate::gaze::{project_sample, projected, GazeQueue, GazeStats, Rect};
use crate::plane::{at, lemma_at_bounds, lemma_at_injective};
use crate::tracker::EyeData;
use crate::{
    fovea_pixels, fovea_size, Coords, Dims, DisplayOptions, EyelinkOptions, FoveationAlg,
    GazeSample, GazeSource, NalData,
};

verus! {

/// The client's state.
#[derive(Debug)]
pub struct FvideoClient {
    pub alg: FoveationAlg,
    /// Size of the foreground.
    pub fg: Dims,
    /// Size of the background.
    pub bg: Dims,
    /// Size of the source video.
    pub src: Dims,
    /// Size of the display.
    pub disp: Dims,
    /// The rectangle of the display that shows the video.
    pub video_rect: Rect,
    pub total_bytes: u64,
    pub fg_bytes: u64,
    pub bg_bytes: u64,
    /// Number of frames shown.
    pub frame_idx: u64,
    pub gaze_source: GazeSource,
    pub gaze: GazeQueue,
    pub eye_used: Option<EyeData>,
    pub eyelink_options: EyelinkOptions,
    /// Whether a wait for a gaze movement has ended.
    pub triggered: bool,
    /// The gaze that the foreground on display was cropped at.
    pub fg_gaze: Option<GazeSample>,
}

/// Sizes of foreground and background for an algorithm: the fovea and the
/// rescaled size with two streams, the source size otherwise.
pub open spec fn stream_dims(alg: FoveationAlg, side: u32, src: Dims, rescale: Dims) -> (Dims, Dims) {
    if alg == FoveationAlg::TwoStream {
        (Dims { width: side, height: side }, rescale)
    } else {
        (src, src)
    }
}

/// The sample that a client starts from: the centre of display and video.
pub open spec fn centre_sample(disp: Dims, src: Dims, now: u64) -> GazeSample {
    GazeSample {
        time: now,
        seqno: 0,
        d_width: disp.width,
        d_height: disp.height,
        d_x: disp.width / 2,
        d_y: disp.height / 2,
        p_x: src.width / 2,
        p_y: src.height / 2,
        m_x: src.width / 2 / 16,
        m_y: src.height / 2 / 16,
    }
}

/// The sum of a counter and a number of bytes, kept at the largest value
/// where it would pass it.
pub open spec fn count_capped(total: u64, bytes: nat) -> u64 {
    if total + bytes > u64::MAX {
        u64::MAX
    } else {
        (total + bytes) as u64
    }
}

/// Adds a number of bytes to a counter.
fn counted(total: u64, bytes: usize) -> (r: u64)
    ensures
        r == count_capped(total, bytes as nat),
{
    let b = bytes as u64;
    if b > u64::MAX - total {
        u64::MAX
    } else {
        total + b
    }
}

/// Where the foreground goes on the canvas.
#[derive(Copy, Clone, Debug, PartialEq, Eq, Structural)]
pub struct Placement {
    /// Centre of the foreground.
    pub c_x: i32,
    pub c_y: i32,
    /// Size of the foreground.
    pub width: u32,
    pub height: u32,
}

/// A coordinate as the canvas takes it; one that is too large is kept at the
/// largest value.
pub open spec fn canvas_coordinate(p: u32) -> i32 {
    if p > i32::MAX {
        i32::MAX
    } else {
        p as i32
    }
}

/// The white square of the latency probe: the sizes of its planes and where
/// it goes on the display.
#[derive(Copy, Clone, Debug, PartialEq, Eq, Structural)]
pub struct WhiteSquare {
    /// Samples in the luma plane.
    pub luma_len: usize,
    /// Samples in each chroma plane.
    pub chroma_len: usize,
    /// Left edge on the display.
    pub x: i32,
    /// Top edge on the display.
    pub y: i32,
    /// Side of the square.
    pub dim: u32,
}

impl FvideoClient {
    /// The gaze queue is valid.
    pub open spec fn wf(&self) -> bool {
        self.gaze.wf()
    }

    /// Makes the state of a client.
    ///
    /// `disp` is the size of the display, `video_rect` the rectangle that
    /// shows the video, `now` the time in nanoseconds. `fovea` is the size of
    /// the fovea in macroblocks; the foreground is a square of that many
    /// macroblocks, but no higher than the source and with an even side.
    pub fn new(
        alg: FoveationAlg,
        fovea: u32,
        src_dims: Dims,
        rescale_dims: Dims,
        display_options: &DisplayOptions,
        gaze_source: GazeSource,
        eyelink_options: EyelinkOptions,
        eye_used: Option<EyeData>,
        disp: Dims,
        video_rect: Rect,
        now: u64,
    ) -> (c: FvideoClient)
        requires
            fovea != 0,
            fovea_pixels(fovea, src_dims.height) <= u32::MAX,
        ensures
            c.wf(),
            c.alg == alg,
            (c.fg, c.bg) == stream_dims(
                alg,
                fovea_pixels(fovea, src_dims.height) as u32,
                src_dims,
                rescale_dims,
            ),
            c.src == src_dims,
            c.disp == disp,
            c.video_rect == video_rect,
            c.total_bytes == 0 && c.fg_bytes == 0 && c.bg_bytes == 0 && c.frame_idx == 0,
            c.gaze_source == gaze_source,
            c.eye_used == eye_used,
            c.eyelink_options == eyelink_options,
            !c.triggered,
            c.fg_gaze is None,
            c.gaze@.last == centre_sample(disp, src_dims, now),
            c.gaze@.pending.len() == 0,
            c.gaze@.seqno == 0,
            c.gaze@.delay == if display_options.delay == 0 {
                None
            } else if display_options.delay > u64::MAX / 1_000_000 {
                Some(u64::MAX)
            } else {
                Some((display_options.delay * 1_000_000) as u64)
            },
            c.gaze@.stats == (GazeStats {
                total_gaze: Coords { x: 0, y: 0 },
                last_gaze: Coords {
                    x: (src_dims.width / 2) as u64,
                    y: (src_dims.height / 2) as u64,
                },
                min_gaze: Coords { x: u64::MAX, y: u64::MAX },
                max_gaze: Coords { x: 0, y: 0 },
            }),
    {
        let first = GazeSample {
            time: now,
            seqno: 0,
            d_width: disp.width,
            d_height: disp.height,
            d_x: disp.width / 2,
            d_y: disp.height / 2,
            p_x: src_dims.width / 2,
            p_y: src_dims.height / 2,
            m_x: src_dims.width / 2 / 16,
            m_y: src_dims.height / 2 / 16,
        };
        let side = match fovea_size(fovea, src_dims.height) {
            Some(side) => side,
            None => 0,
        };
        let (fg, bg) = match alg {
            FoveationAlg::TwoStream => (Dims { width: side, height: side }, rescale_dims),
            _ => (src_dims, src_dims),
        };
        FvideoClient {
            alg,
            fg,
            bg,
            src: src_dims,
            disp,
            video_rect,
            total_bytes: 0,
            fg_bytes: 0,
            bg_bytes: 0,
            frame_idx: 0,
            gaze_source,
            gaze: GazeQueue::new(first, src_dims, display_options.delay),
            eye_used,
            eyelink_options,
            triggered: false,
            fg_gaze: None,
        }
    }

    /// Takes the latest reading and gives the gaze sample for the encoder.
    ///
    /// `reading` is the position in display pixels, if the source has a new
    /// one; without one the newest sample is taken again. `now` is the time
    /// in nanoseconds. The sample that is given has the next sequence
    /// number, which is larger than that of every sample given before as
    /// long as the counter has not reached its largest value. With a delay
    /// it is a sample that is as old as the delay, or the sample given last
    /// again.
    pub fn gaze_sample(&mut self, reading: Option<(u32, u32)>, now: u64) -> (g: GazeSample)
        requires
            old(self).wf(),
        ensures
            final(self).wf(),
            final(self).gaze@ == old(self).gaze@.after(
                old(self).fresh_sample(reading, now),
                now,
            ),
            g == old(self).gaze@.delivered(old(self).fresh_sample(reading, now), now),
            g.seqno == old(self).gaze.seqno,
            final(self).gaze.seqno == crate::gaze::next_seqno(old(self).gaze.seqno),
            g.m_x == g.p_x / 16 && g.m_y == g.p_y / 16,
            g.time >= old(self).gaze.last.time,
            old(self).gaze.delay matches Some(d) ==> (now >= g.time && now - g.time >= d) || g == (
            GazeSample { seqno: old(self).gaze.seqno, ..old(self).gaze.last }),
            final(self).same_display(*old(self)),
            final(self).triggered == old(self).triggered,
    {
        let fresh = match reading {
            Some((d_x, d_y)) => Some(
                project_sample(self.disp, &self.video_rect, d_x, d_y, now, self.gaze.seqno),
            ),
            None => None,
        };
        self.gaze.deliver(fresh, now)
    }

    /// The sample for a reading.
    pub open spec fn fresh_sample(&self, reading: Option<(u32, u32)>, now: u64) -> Option<
        GazeSample,
    > {
        match reading {
            Some((d_x, d_y)) => Some(
                projected(self.disp, self.video_rect, d_x, d_y, now, self.gaze.seqno),
            ),
            None => None,
        }
    }

    /// Everything but the gaze queue and the trigger is as in `other`.
    pub open spec fn same_display(&self, other: FvideoClient) -> bool {
        &&& self.alg == other.alg
        &&& self.fg == other.fg
        &&& self.bg == other.bg
        &&& self.src == other.src
        &&& self.disp == other.disp
        &&& self.video_rect == other.video_rect
        &&& self.total_bytes == other.total_bytes
        &&& self.fg_bytes == other.fg_bytes
        &&& self.bg_bytes == other.bg_bytes
        &&& self.frame_idx == other.frame_idx
        &&& self.gaze_source == other.gaze_source
        &&& self.eye_used == other.eye_used
        &&& self.eyelink_options == other.eyelink_options
        &&& self.fg_gaze == other.fg_gaze
    }

    /// One poll of the wait for a gaze movement.
    ///
    /// `gaze` is the sample made from the tracker's reading; its macroblock
    /// position is made anew from its video position. It becomes the newest
    /// sample of the queue. Where it is more than `thresh` video pixels away
    /// from the sample seen before it along an axis (the sample given last,
    /// or that of the poll before), the wait ends and that sample is
    /// returned unchanged: it is the last one before the move. Otherwise the
    /// caller polls again.
    pub fn triggered_gaze_sample(&mut self, gaze: GazeSample, thresh: i32) -> (r: Option<
        GazeSample,
    >)
        requires
            old(self).wf(),
        ensures
            final(self).wf(),
            r == if crate::moved(gaze, old(self).gaze.last, thresh as int) {
                Some(old(self).gaze.last)
            } else {
                None
            },
            r matches Some(g) ==> g.m_x == g.p_x / 16 && g.m_y == g.p_y / 16,
            final(self).triggered == (old(self).triggered || r is Some),
            final(self).gaze@ == old(self).gaze@.replaced(gaze, thresh as int),
            final(self).same_display(*old(self)),
    {
        let r = self.gaze.replace(gaze, thresh);
        if r.is_some() {
            self.triggered = true;
        }
        r
    }

    /// Takes note of the frames that are about to be shown and tells whether
    /// there is anything to draw.
    ///
    /// With two streams there is nothing to draw where both streams are
    /// absent. Otherwise the bytes of the streams are counted, and the gaze
    /// of the foreground is kept for its placement; where no foreground
    /// comes, the gaze of the foreground before it stays. With one stream
    /// the background is the picture; it must be there.
    pub fn display_frame(&mut self, fg_nal: Option<&(NalData, GazeSample)>, bg_nal: Option<
        &NalData,
    >) -> (draw: bool)
        requires
            old(self).alg != FoveationAlg::TwoStream ==> bg_nal is Some,
        ensures
            final(self).gaze == old(self).gaze,
            final(self).triggered == old(self).triggered,
            final(self).frame_idx == old(self).frame_idx,
            final(self).alg == old(self).alg,
            final(self).fg == old(self).fg,
            final(self).bg == old(self).bg,
            final(self).src == old(self).src,
            final(self).disp == old(self).disp,
            final(self).video_rect == old(self).video_rect,
            final(self).gaze_source == old(self).gaze_source,
            final(self).eye_used == old(self).eye_used,
            final(self).eyelink_options == old(self).eyelink_options,
            draw == (old(self).alg != FoveationAlg::TwoStream || fg_nal is Some
                || bg_nal is Some),
            old(self).alg == FoveationAlg::TwoStream ==> {
                let bg_len = match bg_nal {
                    Some(n) => n.vec@.len(),
                    None => 0,
                };
                let fg_len = match fg_nal {
                    Some(pair) => pair.0.vec@.len(),
                    None => 0,
                };
                &&& final(self).bg_bytes == count_capped(old(self).bg_bytes, bg_len)
                &&& final(self).fg_bytes == count_capped(old(self).fg_bytes, fg_len)
                &&& final(self).total_bytes == count_capped(
                    count_capped(old(self).total_bytes, bg_len),
                    fg_len,
                )
                &&& final(self).fg_gaze == match fg_nal {
                    Some(pair) => Some(pair.1),
                    None => old(self).fg_gaze,
                }
            },
            old(self).alg != FoveationAlg::TwoStream ==> {
                &&& final(self).total_bytes == count_capped(
                    old(self).total_bytes,
                    bg_nal->0.vec@.len(),
                )
                &&& final(self).bg_bytes == old(self).bg_bytes
                &&& final(self).fg_bytes == old(self).fg_bytes
                &&& final(self).fg_gaze == old(self).fg_gaze
            },
    {
        match self.alg {
            FoveationAlg::TwoStream => {
                if fg_nal.is_none() && bg_nal.is_none() {
                    return false;
                }
                if let Some(bg) = bg_nal {
                    let n = bg.as_bytes().len();
                    self.total_bytes = counted(self.total_bytes, n);
                    self.bg_bytes = counted(self.bg_bytes, n);
                }
                match fg_nal {
                    Some(pair) => {
                        let n = pair.0.as_bytes().len();
                        self.total_bytes = counted(self.total_bytes, n);
                        self.fg_bytes = counted(self.fg_bytes, n);
                        self.fg_gaze = Some(pair.1);
                    },
                    None => {},
                }
                true
            },
            _ => {
                let n = match bg_nal {
                    Some(bg) => bg.as_bytes().len(),
                    None => 0,
                };
                self.total_bytes = counted(self.total_bytes, n);
                true
            },
        }
    }

    /// Where the foreground goes on the canvas: centred on the gaze that the
    /// foreground shown last was cropped at, or on the origin where no
    /// foreground has come yet. `width` and `height` are those of the
    /// decoded foreground.
    pub fn foreground_placement(&self, width: u32, height: u32) -> (p: Placement)
        ensures
            p == (Placement {
                c_x: match self.fg_gaze {
                    Some(g) => canvas_coordinate(g.p_x),
                    None => 0,
                },
                c_y: match self.fg_gaze {
                    Some(g) => canvas_coordinate(g.p_y),
                    None => 0,
                },
                width,
                height,
            }),
    {
        let (c_x, c_y) = match self.fg_gaze {
            Some(g) => (to_canvas(g.p_x), to_canvas(g.p_y)),
            None => (0, 0),
        };
        Placement { c_x, c_y, width, height }
    }

    /// Counts a frame that was drawn.
    pub fn frame_shown(&mut self)
        ensures
            final(self).frame_idx == if old(self).frame_idx < u64::MAX {
                (old(self).frame_idx + 1) as u64
            } else {
                old(self).frame_idx
            },
            final(self).gaze == old(self).gaze,
            final(self).triggered == old(self).triggered,
            final(self).total_bytes == old(self).total_bytes,
            final(self).fg_bytes == old(self).fg_bytes,
            final(self).bg_bytes == old(self).bg_bytes,
            final(self).same_place(*old(self)),
    {
        if self.frame_idx < u64::MAX {
            self.frame_idx = self.frame_idx + 1;
        }
    }

    /// The sizes and the display are as in `other`.
    pub open spec fn same_place(&self, other: FvideoClient) -> bool {
        &&& self.alg == other.alg
        &&& self.fg == other.fg
        &&& self.bg == other.bg
        &&& self.src == other.src
        &&& self.disp == other.disp
        &&& self.video_rect == other.video_rect
        &&& self.gaze_source == other.gaze_source
        &&& self.eye_used == other.eye_used
        &&& self.eyelink_options == other.eyelink_options
        &&& self.fg_gaze == other.fg_gaze
    }

    /// The white square of side `dim` for the bottom-left corner of the
    /// display. There is none where the square is higher than the display or
    /// its planes do not fit in memory.
    pub fn display_white(&self, dim: u32) -> (r: Option<WhiteSquare>)
        ensures
            r == if dim > self.disp.height || self.disp.height - dim > i32::MAX || dim as int
                * dim as int > usize::MAX {
                None
            } else {
                Some(
                    WhiteSquare {
                        luma_len: (dim as int * dim as int) as usize,
                        chroma_len: ((dim / 2) as int * dim as int / 2) as usize,
                        x: 0,
                        y: (self.disp.height - dim) as i32,
                        dim,
                    },
                )
            },
    {
        if dim > self.disp.height || self.disp.height - dim > i32::MAX as u32 {
            return None;
        }
        assert(0 <= dim as int * dim as int <= 0xffff_ffff * 0xffff_ffff) by (nonlinear_arith)
            requires
                0 <= dim <= 0xffff_ffff,
        ;
        assert(0 <= (dim / 2) as int * dim as int <= dim as int * dim as int) by (nonlinear_arith)
            requires
                0 <= dim / 2 <= dim,
        ;
        let luma: u64 = dim as u64 * dim as u64;
        if luma > usize::MAX as u64 {
            return None;
        }
        let chroma: u64 = (dim / 2) as u64 * dim as u64 / 2;
        Some(
            WhiteSquare {
                luma_len: luma as usize,
                chroma_len: chroma as usize,
                x: 0,
                y: (self.disp.height - dim) as i32,
                dim,
            },
        )
    }

    /// Number of frames shown.
    pub fn total_frames(&self) -> (n: u64)
        ensures
            n == self.frame_idx,
    {
        self.frame_idx
    }

    /// Bytes of all streams taken.
    pub fn total_bytes(&self) -> (n: u64)
        ensures
            n == self.total_bytes,
    {
        self.total_bytes
    }

    /// Bytes of the foreground stream taken.
    pub fn fg_bytes(&self) -> (n: u64)
        ensures
            n == self.fg_bytes,
    {
        self.fg_bytes
    }

    /// Bytes of the background stream taken.
    pub fn bg_bytes(&self) -> (n: u64)
        ensures
            n == self.bg_bytes,
    {
        self.bg_bytes
    }

    /// Distance that the gaze has travelled along each axis.
    pub fn total_gaze(&self) -> (c: Coords)
        ensures
            c == self.gaze.stats.total_gaze,
    {
        self.gaze.stats.total_gaze
    }

    /// Smallest gaze coordinates seen.
    pub fn min_gaze(&self) -> (c: Coords)
        ensures
            c == self.gaze.stats.min_gaze,
    {
        self.gaze.stats.min_gaze
    }

    /// Largest gaze coordinates seen.
    pub fn max_gaze(&self) -> (c: Coords)
        ensures
            c == self.gaze.stats.max_gaze,
    {
        self.gaze.stats.max_gaze
    }
}

/// A coordinate as the canvas takes it.
fn to_canvas(p: u32) -> (c: i32)
    ensures
        c == canvas_coordinate(p),
{
    if p > i32::MAX as u32 {
        i32::MAX
    } else {
        p as i32
    }
}

/// Computes what the alpha mask of a foreground of side `fg_width` is made
/// from: for each cell of the patch, row by row, the square of its distance
/// from the centre cell. The mask value of a cell is a falling function of
/// this number, a Gaussian that the caller computes in floating point; the
/// bytes of the mask are not made here. There is no table where it does not
/// fit in memory.
pub fn compute_alpha(fg_width: u32) -> (r: Option<Vec<u64>>)
    ensures
        r is Some == (fg_width as int * fg_width as int <= usize::MAX),
        r matches Some(table) ==> {
            &&& table@.len() == fg_width as int * fg_width as int
            &&& forall|i: int, j: int|
                0 <= i < fg_width && 0 <= j < fg_width ==> #[trigger] table@[at(
                    fg_width as int,
                    j,
                    i,
                )] == centre_distance(fg_width, i, j)
        },
{
    let r = offset_table(fg_width, fg_width, fg_width / 2, fg_width / 2, Shape::Distance);
    proof {
        if r is Some {
            let table = r->0;
            assert forall|i: int, j: int| 0 <= i < fg_width && 0 <= j < fg_width implies #[trigger] table@[at(
                fg_width as int,
                j,
                i,
            )] == centre_distance(fg_width, i, j) by {
                lemma_centre_distance_fits(fg_width, i, j);
            }
        }
    }
    r
}

/// `after` is the texture `before` with the alpha byte of every pixel taken
/// from `alpha`. The texture has `height` rows of `stride` bytes; byte `b` of
/// a row belongs to pixel `b / 4` and is its alpha byte where `b % 4` is 3.
/// The mask has a value for each of the `width` pixels of a row.
pub open spec fn alpha_applied(
    before: Seq<u8>,
    after: Seq<u8>,
    stride: int,
    width: int,
    height: int,
    alpha: Seq<u8>,
) -> bool {
    &&& after.len() == before.len()
    &&& forall|j: int, b: int|
        0 <= j < height && 0 <= b < stride ==> #[trigger] after[at(stride, j, b)] == (if b % 4 == 3
            && b < 4 * width {
            alpha[at(width, j, b / 4)]
        } else {
            before[at(stride, j, b)]
        })
    &&& forall|k: int| stride * height <= k < after.len() ==> after[k] == before[k]
}

/// Overwrites the alpha channel of a foreground texture with the mask.
///
/// The texture has `height` rows of `stride` bytes, each of which starts
/// with `width` pixels of four bytes. Nothing is changed, and `false` is
/// returned, where the rows do not fit in the texture or in their stride or
/// the mask is too short.
pub fn apply_alpha(rgba: &mut [u8], stride: usize, width: usize, height: usize, alpha: &[u8]) -> (ok:
    bool)
    ensures
        ok == (4 * width <= stride && stride * height <= old(rgba)@.len() && width * height
            <= alpha@.len()),
        ok ==> alpha_applied(
            old(rgba)@,
            final(rgba)@,
            stride as int,
            width as int,
            height as int,
            alpha@,
        ),
        !ok ==> final(rgba)@ == old(rgba)@,
{
    if width > usize::MAX / 4 || 4 * width > stride {
        return false;
    }
    let total = rgba.len();
    let mask = alpha.len();
    if height > 0 {
        let q = total / height;
        proof {
            vstd::arithmetic::div_mod::lemma_fundamental_div_mod(total as int, height as int);
            vstd::arithmetic::div_mod::lemma_mod_bound(total as int, height as int);
        }
        if stride > q {
            assert(stride * height > total) by (nonlinear_arith)
                requires
                    stride >= q + 1,
                    height > 0,
                    total == height * q + total % height,
                    total % height < height,
            ;
            return false;
        }
        assert(stride * height <= total) by (nonlinear_arith)
            requires
                0 <= stride <= q,
                height > 0,
                total == height * q + total % height,
                0 <= total % height,
        ;
        assert(0 <= width * height <= stride * height) by (nonlinear_arith)
            requires
                0 <= width <= stride,
                height >= 0,
        ;
        if width * height > mask {
            return false;
        }
    } else {
        assert(stride * height == 0 && width * height == 0) by (nonlinear_arith)
            requires
                height == 0,
        ;
    }
    let ghost before = rgba@;
    let mut j: usize = 0;
    while j < height
        invariant
            0 <= j <= height,
            4 * width <= stride,
            stride * height <= total,
            width * height <= mask,
            total == rgba@.len(),
            mask == alpha@.len(),
            before.len() == rgba@.len(),
            forall|y: int, b: int|
                0 <= y < height && 0 <= b < stride ==> #[trigger] rgba@[at(stride as int, y, b)]
                    == (if b % 4 == 3 && b < 4 * width && y < j {
                    alpha@[at(width as int, y, b / 4)]
                } else {
                    before[at(stride as int, y, b)]
                }),
            forall|k: int| stride * height <= k < rgba@.len() ==> rgba@[k] == before[k],
        decreases height - j,
    {
        let mut i: usize = 0;
        while i < width
            invariant
                0 <= i <= width,
                0 <= j < height,
                4 * width <= stride,
                stride * height <= total,
                width * height <= mask,
                total == rgba@.len(),
                mask == alpha@.len(),
                before.len() == rgba@.len(),
                forall|y: int, b: int|
                    0 <= y < height && 0 <= b < stride ==> #[trigger] rgba@[at(stride as int, y, b)]
                        == (if b % 4 == 3 && b < 4 * width && (y < j || (y == j && b / 4 < i)) {
                        alpha@[at(width as int, y, b / 4)]
                    } else {
                        before[at(stride as int, y, b)]
                    }),
                forall|k: int| stride * height <= k < rgba@.len() ==> rgba@[k] == before[k],
            decreases width - i,
        {
            proof {
                lemma_at_bounds(stride as int, height as int, j as int, 4 * i as int + 3);
                lemma_at_bounds(width as int, height as int, j as int, i as int);
                assert(0 <= j * stride) by (nonlinear_arith)
                    requires
                        0 <= j,
                        0 <= stride,
                ;
                assert(0 <= j * width) by (nonlinear_arith)
                    requires
                        0 <= j,
                        0 <= width,
                ;
            }
            let to = j * stride + 4 * i + 3;
            let from = j * width + i;
            assert(to == at(stride as int, j as int, 4 * i + 3));
            assert(from == at(width as int, j as int, i as int));
            let value = alpha[from];
            let ghost prev = rgba@;
            rgba[to] = value;
            proof {
                assert forall|y: int, b: int| 0 <= y < height && 0 <= b < stride implies #[trigger] rgba@[at(
                    stride as int,
                    y,
                    b,
                )] == (if b % 4 == 3 && b < 4 * width && (y < j || (y == j && b / 4 < i + 1)) {
                    alpha@[at(width as int, y, b / 4)]
                } else {
                    before[at(stride as int, y, b)]
                }) by {
                    lemma_at_bounds(stride as int, height as int, y, b);
                    if at(stride as int, y, b) == to {
                        lemma_at_injective(stride as int, y, b, j as int, 4 * i + 3);
                    } else {
                        assert(rgba@[at(stride as int, y, b)] == prev[at(stride as int, y, b)]);
                    }
                }
            }
            i += 1;
        }
        j += 1;
    }
    true
}

} // verus!

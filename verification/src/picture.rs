//! Planar YUV 4:2:0 pictures and the crop of the foveal region.
//!
//! A picture of width `W` and height `H` has a luma plane of `W` by `H`
//! pixels and two chroma planes of `W / 2` by `H / 2` pixels each, all stored
//! row by row without padding.

use vstd::prelude::*;
use crate::plane::{at, copy_window, fill, lemma_window_is_crop, paint_rect, plane_cropped};
use crate::GazeSample;

verus! {

/// Luma value of black.
pub const BLACK: u8 = 16;

/// Luma value of white.
pub const WHITE: u8 = 235;

/// Chroma value of grey.
pub const NEUTRAL: u8 = 128;

/// A planar YUV 4:2:0 picture.
pub struct Picture {
    width: u32,
    height: u32,
    timestamp: i64,
    luma: Vec<u8>,
    cb: Vec<u8>,
    cr: Vec<u8>,
}

/// What a picture holds: its size, its presentation time and its three
/// planes (luma, then the two chroma planes).
pub struct PictureView {
    pub width: nat,
    pub height: nat,
    pub timestamp: int,
    pub planes: Seq<Seq<u8>>,
}

impl PictureView {
    /// Width of plane `i` in pixels.
    pub open spec fn plane_width(self, i: int) -> int {
        if i == 0 {
            self.width as int
        } else {
            self.width as int / 2
        }
    }

    /// Height of plane `i` in pixels.
    pub open spec fn plane_height(self, i: int) -> int {
        if i == 0 {
            self.height as int
        } else {
            self.height as int / 2
        }
    }

    /// The picture has three planes, each of the size that its dimensions
    /// give.
    pub open spec fn valid(self) -> bool {
        &&& self.width <= u32::MAX
        &&& self.height <= u32::MAX
        &&& self.planes.len() == 3
        &&& forall|i: int|
            0 <= i < 3 ==> (#[trigger] self.planes[i]).len() == self.plane_width(i)
                * self.plane_height(i)
    }

    /// The pixel of plane `i` at row `r` and column `c`.
    pub open spec fn pixel(self, i: int, r: int, c: int) -> u8 {
        self.planes[i][at(self.plane_width(i), r, c)]
    }
}

impl View for Picture {
    type V = PictureView;

    closed spec fn view(&self) -> PictureView {
        PictureView {
            width: self.width as nat,
            height: self.height as nat,
            timestamp: self.timestamp as int,
            planes: seq![self.luma@, self.cb@, self.cr@],
        }
    }
}

/// The even coordinate at which a window of `size` pixels centred on `p`
/// starts: `p - size / 2`, moved up by one where that is odd.
pub open spec fn crop_origin(p: u32, size: u32) -> int {
    let n = p as int - (size / 2) as int;
    if n % 2 == 0 {
        n
    } else {
        n + 1
    }
}

/// The gaze coordinate that goes with `crop_origin`: `p`, moved by one where
/// the window was.
pub open spec fn crop_centre(p: u32, size: u32) -> int {
    crop_origin(p, size) + (size / 2) as int
}

/// Crop alignment: the window starts at an even coordinate, and the gaze is
/// where it was or one pixel further.
pub proof fn lemma_crop_alignment(p: u32, size: u32)
    ensures
        crop_origin(p, size) % 2 == 0,
        crop_centre(p, size) == p || crop_centre(p, size) == p + 1,
        crop_centre(p, size) - crop_origin(p, size) == size / 2,
{
}

/// Plane `i` of `after` is plane `i` of `before` with the window of `src`
/// copied over it whose top-left luma pixel is (`left`, `top`).
pub open spec fn picture_cropped(
    src: PictureView,
    before: PictureView,
    after: PictureView,
    left: int,
    top: int,
) -> bool {
    forall|i: int|
        0 <= i < 3 ==> plane_cropped(
            #[trigger] src.planes[i],
            src.plane_width(i),
            src.plane_height(i),
            before.planes[i],
            after.planes[i],
            before.plane_width(i),
            before.plane_height(i),
            if i == 0 {
                left
            } else {
                left / 2
            },
            if i == 0 {
                top
            } else {
                top / 2
            },
        )
}

/// Where a window starts in the source and in the destination along one
/// axis: `(source start, destination start)`, one of which is 0.
fn window_start(p: u32, size: u32) -> (r: (u32, u32))
    requires
        p < u32::MAX,
    ensures
        r.0 - r.1 == crop_origin(p, size),
        r.0 == 0 || r.1 == 0,
        r.0 % 2 == 0,
        r.1 % 2 == 0,
{
    let half = size / 2;
    if p >= half {
        let n = p - half;
        if n % 2 == 0 {
            (n, 0)
        } else {
            (n + 1, 0)
        }
    } else {
        let m = half - p;
        if m % 2 == 0 {
            (0, m)
        } else {
            (0, m - 1)
        }
    }
}

impl Picture {
    /// The planes have the sizes that width and height give.
    pub open spec fn wf(&self) -> bool {
        self@.valid()
    }

    /// Makes a picture of the given size with every sample at 0. There is
    /// none where the luma plane would not fit in memory.
    pub fn new(width: u32, height: u32) -> (r: Option<Picture>)
        ensures
            r is Some == (width as int * height as int <= usize::MAX),
            r matches Some(pic) ==> {
                &&& pic.wf()
                &&& pic@.width == width
                &&& pic@.height == height
                &&& pic@.timestamp == 0
                &&& forall|i: int, k: int|
                    0 <= i < 3 && 0 <= k < pic@.planes[i].len() ==> pic@.planes[i][k] == 0
            },
    {
        assert(0 <= width as int * height as int <= 0xffff_ffff * 0xffff_ffff) by (nonlinear_arith)
            requires
                0 <= width <= 0xffff_ffff,
                0 <= height <= 0xffff_ffff,
        ;
        let size: u64 = width as u64 * height as u64;
        if size > usize::MAX as u64 {
            return None;
        }
        let cw = width / 2;
        let ch = height / 2;
        assert(0 <= cw as int * ch as int <= width as int * height as int) by (nonlinear_arith)
            requires
                0 <= cw <= width,
                0 <= ch <= height,
        ;
        let chroma: u64 = cw as u64 * ch as u64;
        let luma: Vec<u8> = vec![0u8; size as usize];
        let cb: Vec<u8> = vec![0u8; chroma as usize];
        let cr: Vec<u8> = vec![0u8; chroma as usize];
        let pic = Picture { width, height, timestamp: 0, luma, cb, cr };
        assert(pic@.planes[0] == pic.luma@);
        assert(pic@.planes[1] == pic.cb@);
        assert(pic@.planes[2] == pic.cr@);
        Some(pic)
    }

    /// Width in pixels.
    pub fn width(&self) -> (w: u32)
        ensures
            w == self@.width,
    {
        self.width
    }

    /// Height in pixels.
    pub fn height(&self) -> (h: u32)
        ensures
            h == self@.height,
    {
        self.height
    }

    /// Presentation time.
    pub fn timestamp(&self) -> (pts: i64)
        ensures
            pts == self@.timestamp,
    {
        self.timestamp
    }

    /// Sets the presentation time.
    pub fn set_timestamp(&mut self, pts: i64)
        ensures
            final(self)@ == (PictureView { timestamp: pts as int, ..old(self)@ }),
    {
        self.timestamp = pts;
    }

    /// The samples of a plane, row by row.
    pub fn as_slice(&self, plane: usize) -> (r: Result<&[u8], &'static str>)
        ensures
            r is Ok == (plane < 3),
            r matches Ok(s) ==> s@ == self@.planes[plane as int],
            r matches Err(e) ==> e@ == "Invalid Argument"@,
    {
        if plane == 0 {
            Ok(self.luma.as_slice())
        } else if plane == 1 {
            Ok(self.cb.as_slice())
        } else if plane == 2 {
            Ok(self.cr.as_slice())
        } else {
            Err("Invalid Argument")
        }
    }

    /// Replaces the samples of a plane. The data must have the size of the
    /// plane; the picture is left as it is where it has not.
    pub fn load_plane(&mut self, plane: usize, data: &[u8]) -> (r: Result<(), &'static str>)
        requires
            old(self).wf(),
        ensures
            final(self).wf(),
            r is Ok == (plane < 3 && data@.len() == old(self)@.planes[plane as int].len()),
            r is Ok ==> final(self)@ == (PictureView {
                planes: old(self)@.planes.update(plane as int, data@),
                ..old(self)@
            }),
            r matches Err(e) ==> final(self)@ == old(self)@ && e@ == "Invalid Argument"@,
    {
        if plane >= 3 {
            return Err("Invalid Argument");
        }
        let ghost before = self@;
        let n = if plane == 0 {
            self.luma.len()
        } else if plane == 1 {
            self.cb.len()
        } else {
            self.cr.len()
        };
        assert(n == before.planes[plane as int].len());
        if data.len() != n {
            return Err("Invalid Argument");
        }
        let copy = vstd::slice::slice_to_vec(data);
        if plane == 0 {
            self.luma = copy;
        } else if plane == 1 {
            self.cb = copy;
        } else {
            self.cr = copy;
        }
        proof {
            assert(self@.planes =~= before.planes.update(plane as int, data@));
            assert forall|i: int| 0 <= i < 3 implies (#[trigger] self@.planes[i]).len()
                == self@.plane_width(i) * self@.plane_height(i) by {
                assert(before.planes[i].len() == before.plane_width(i) * before.plane_height(i));
            }
        }
        Ok(())
    }

    /// Paints the picture black.
    pub fn paint_black(&mut self)
        requires
            old(self).wf(),
        ensures
            final(self).wf(),
            final(self)@.width == old(self)@.width,
            final(self)@.height == old(self)@.height,
            final(self)@.timestamp == old(self)@.timestamp,
            forall|k: int|
                0 <= k < final(self)@.planes[0].len() ==> final(self)@.planes[0][k] == BLACK,
            forall|i: int, k: int|
                1 <= i < 3 && 0 <= k < final(self)@.planes[i].len() ==> final(self)@.planes[i][k]
                    == NEUTRAL,
    {
        let ghost before = self@;
        assert(before.planes[0].len() == before.plane_width(0) * before.plane_height(0));
        assert(before.planes[1].len() == before.plane_width(1) * before.plane_height(1));
        assert(before.planes[2].len() == before.plane_width(2) * before.plane_height(2));
        fill(self.luma.as_mut_slice(), BLACK);
        fill(self.cb.as_mut_slice(), NEUTRAL);
        fill(self.cr.as_mut_slice(), NEUTRAL);
    }

    /// Paints the picture black with a white square of side `box_dim` in its
    /// bottom-left corner. The square's topmost row stays black.
    pub fn paint_white_box(&mut self, box_dim: u32)
        requires
            old(self).wf(),
        ensures
            final(self).wf(),
            final(self)@.width == old(self)@.width,
            final(self)@.height == old(self)@.height,
            final(self)@.timestamp == old(self)@.timestamp,
            forall|r: int, c: int|
                0 <= r < final(self)@.height && 0 <= c < final(self)@.width
                    ==> #[trigger] final(self)@.pixel(0, r, c) == (if r + box_dim > final(
                    self)@.height && c < box_dim {
                    WHITE
                } else {
                    BLACK
                }),
            forall|i: int, k: int|
                1 <= i < 3 && 0 <= k < final(self)@.planes[i].len() ==> final(self)@.planes[i][k]
                    == NEUTRAL,
    {
        self.paint_black();
        let ghost black = self@;
        assert(black.planes[0].len() == black.plane_width(0) * black.plane_height(0));
        let r0 = if box_dim == 0 {
            self.height
        } else if box_dim > self.height {
            0
        } else {
            self.height - box_dim + 1
        };
        let c1 = if box_dim > self.width {
            self.width
        } else {
            box_dim
        };
        paint_rect(&mut self.luma, self.width, self.height, r0, self.height, 0, c1, WHITE);
        proof {
            assert forall|r: int, c: int|
                0 <= r < self@.height && 0 <= c < self@.width implies #[trigger] self@.pixel(
                0,
                r,
                c,
            ) == (if r + box_dim > self@.height && c < box_dim {
                WHITE
            } else {
                BLACK
            }) by {
                crate::plane::lemma_at_bounds(self@.width as int, self@.height as int, r, c);
                assert(self@.planes[0][at(self@.width as int, r, c)] == self.luma@[at(
                    self.width as int,
                    r,
                    c,
                )]);
            }
        }
    }

    /// Copies into `dst` the part of `self` that is centred on the gaze.
    ///
    /// The window has the size of `dst`. Its top-left corner is moved to even
    /// coordinates, and the gaze is moved with it. Where the window reaches
    /// over an edge of `self`, the pixels of `dst` that have no source keep
    /// their values.
    pub fn crop(&self, dst: &mut Picture, gaze: &mut GazeSample)
        requires
            self.wf(),
            old(dst).wf(),
            old(gaze).p_x < u32::MAX,
            old(gaze).p_y < u32::MAX,
        ensures
            final(dst).wf(),
            final(dst)@.width == old(dst)@.width,
            final(dst)@.height == old(dst)@.height,
            final(dst)@.timestamp == old(dst)@.timestamp,
            crop_origin(old(gaze).p_x, old(dst)@.width as u32) % 2 == 0,
            crop_origin(old(gaze).p_y, old(dst)@.height as u32) % 2 == 0,
            *final(gaze) == (GazeSample {
                p_x: crop_centre(old(gaze).p_x, old(dst)@.width as u32) as u32,
                p_y: crop_centre(old(gaze).p_y, old(dst)@.height as u32) as u32,
                ..*old(gaze)
            }),
            picture_cropped(
                self@,
                old(dst)@,
                final(dst)@,
                crop_origin(old(gaze).p_x, old(dst)@.width as u32),
                crop_origin(old(gaze).p_y, old(dst)@.height as u32),
            ),
    {
        let ghost before = dst@;
        let ghost src = self@;
        let (src_x, dst_x) = window_start(gaze.p_x, dst.width);
        let (src_y, dst_y) = window_start(gaze.p_y, dst.height);
        let ghost left = src_x as int - dst_x as int;
        let ghost top = src_y as int - dst_y as int;
        proof {
            assert forall|i: int| 0 <= i < 3 implies (#[trigger] before.planes[i]).len()
                == before.plane_width(i) * before.plane_height(i) by {}
            assert(before.planes[0].len() == before.plane_width(0) * before.plane_height(0));
            assert(before.planes[1].len() == before.plane_width(1) * before.plane_height(1));
            assert(before.planes[2].len() == before.plane_width(2) * before.plane_height(2));
            assert(src.planes[0].len() == src.plane_width(0) * src.plane_height(0));
            assert(src.planes[1].len() == src.plane_width(1) * src.plane_height(1));
            assert(src.planes[2].len() == src.plane_width(2) * src.plane_height(2));
        }
        copy_window(
            &self.luma,
            self.width,
            self.height,
            &mut dst.luma,
            dst.width,
            dst.height,
            src_x,
            src_y,
            dst_x,
            dst_y,
        );
        copy_window(
            &self.cb,
            self.width / 2,
            self.height / 2,
            &mut dst.cb,
            dst.width / 2,
            dst.height / 2,
            src_x / 2,
            src_y / 2,
            dst_x / 2,
            dst_y / 2,
        );
        copy_window(
            &self.cr,
            self.width / 2,
            self.height / 2,
            &mut dst.cr,
            dst.width / 2,
            dst.height / 2,
            src_x / 2,
            src_y / 2,
            dst_x / 2,
            dst_y / 2,
        );
        proof {
            lemma_window_is_crop(
                self.luma@,
                self.width as int,
                self.height as int,
                before.planes[0],
                dst.luma@,
                dst.width as int,
                dst.height as int,
                src_x as int,
                src_y as int,
                dst_x as int,
                dst_y as int,
            );
            lemma_window_is_crop(
                self.cb@,
                self.width as int / 2,
                self.height as int / 2,
                before.planes[1],
                dst.cb@,
                dst.width as int / 2,
                dst.height as int / 2,
                src_x as int / 2,
                src_y as int / 2,
                dst_x as int / 2,
                dst_y as int / 2,
            );
            lemma_window_is_crop(
                self.cr@,
                self.width as int / 2,
                self.height as int / 2,
                before.planes[2],
                dst.cr@,
                dst.width as int / 2,
                dst.height as int / 2,
                src_x as int / 2,
                src_y as int / 2,
                dst_x as int / 2,
                dst_y as int / 2,
            );
        }
        let half_w = dst.width / 2;
        let half_h = dst.height / 2;
        if gaze.p_x >= half_w {
            gaze.p_x = src_x + half_w;
        } else {
            gaze.p_x = half_w - dst_x;
        }
        if gaze.p_y >= half_h {
            gaze.p_y = src_y + half_h;
        } else {
            gaze.p_y = half_h - dst_y;
        }
        proof {
            assert(left / 2 == src_x / 2 - dst_x / 2);
            assert(top / 2 == src_y / 2 - dst_y / 2);
            assert(dst@.planes[0] == dst.luma@);
            assert(dst@.planes[1] == dst.cb@);
            assert(dst@.planes[2] == dst.cr@);
            assert(src.planes[0] == self.luma@);
            assert(src.planes[1] == self.cb@);
            assert(src.planes[2] == self.cr@);
        }
    }
}

} // verus!

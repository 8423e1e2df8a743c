//! Planes of pixels stored row by row without padding.
//!
//! A plane of width `w` keeps the pixel of row `r` and column `c` at index
//! `r * w + c`. The functions here fill a plane and copy a window of one plane
//! into another, clipped at the edges of both.

use vstd::prelude::*;

verus! {

/// Index of the pixel at row `r` and column `c` in a plane of width `w`.
pub open spec fn at(w: int, r: int, c: int) -> int {
    r * w + c
}

/// `after` is `before` with the window of `src` whose top-left corner is
/// (`left`, `top`) copied over it. A pixel of the destination whose source
/// would lie outside `src` keeps its value.
pub open spec fn plane_cropped(
    src: Seq<u8>,
    sw: int,
    sh: int,
    before: Seq<u8>,
    after: Seq<u8>,
    dw: int,
    dh: int,
    left: int,
    top: int,
) -> bool {
    &&& after.len() == before.len()
    &&& forall|r: int, c: int|
        0 <= r < dh && 0 <= c < dw ==> #[trigger] after[at(dw, r, c)] == (if 0 <= top + r < sh && 0
            <= left + c < sw {
            src[at(sw, top + r, left + c)]
        } else {
            before[at(dw, r, c)]
        })
}

/// `after` is `before` with a window of `src` copied over it: the pixel of
/// `src` at column `src_x` and row `src_y` goes to column `dst_x` and row
/// `dst_y` of the destination, and so on to the right and downwards as far
/// as both planes reach.
pub open spec fn window_copied(
    src: Seq<u8>,
    sw: int,
    sh: int,
    before: Seq<u8>,
    after: Seq<u8>,
    dw: int,
    dh: int,
    src_x: int,
    src_y: int,
    dst_x: int,
    dst_y: int,
) -> bool {
    &&& after.len() == before.len()
    &&& forall|r: int, c: int|
        0 <= r < dh && 0 <= c < dw ==> #[trigger] after[at(dw, r, c)] == (if dst_y <= r && dst_x
            <= c && r - dst_y + src_y < sh && c - dst_x + src_x < sw {
            src[at(sw, r - dst_y + src_y, c - dst_x + src_x)]
        } else {
            before[at(dw, r, c)]
        })
}

/// Every pixel of a plane has an index inside the plane.
pub proof fn lemma_at_bounds(w: int, h: int, r: int, c: int)
    requires
        0 <= r < h,
        0 <= c < w,
    ensures
        0 <= at(w, r, c) < w * h,
        at(w, r, c) + (w - c) <= w * h,
{
    assert(r * w + w <= h * w) by (nonlinear_arith)
        requires
            0 <= r < h,
            0 <= w,
    ;
    assert(0 <= r * w) by (nonlinear_arith)
        requires
            0 <= r,
            0 <= w,
    ;
    assert(h * w == w * h) by (nonlinear_arith);
}

/// Two pixels with the same index are the same pixel.
pub proof fn lemma_at_injective(w: int, r1: int, c1: int, r2: int, c2: int)
    requires
        0 <= c1 < w,
        0 <= c2 < w,
        at(w, r1, c1) == at(w, r2, c2),
    ensures
        r1 == r2,
        c1 == c2,
{
    if r1 < r2 {
        assert(r1 * w + w <= r2 * w) by (nonlinear_arith)
            requires
                r1 < r2,
                0 <= w,
        ;
    } else if r2 < r1 {
        assert(r2 * w + w <= r1 * w) by (nonlinear_arith)
            requires
                r2 < r1,
                0 <= w,
        ;
    }
}

/// Sets every element of `slice` to `value`.
pub fn fill(slice: &mut [u8], value: u8)
    ensures
        final(slice)@.len() == old(slice)@.len(),
        forall|i: int| 0 <= i < final(slice)@.len() ==> final(slice)@[i] == value,
{
    let n = slice.len();
    let mut i: usize = 0;
    while i < n
        invariant
            i <= n,
            n == slice@.len(),
            slice@.len() == old(slice)@.len(),
            forall|k: int| 0 <= k < i ==> slice@[k] == value,
        decreases n - i,
    {
        slice[i] = value;
        i += 1;
    }
}

/// The smaller of the rows (or columns) left in the destination and in the
/// source, counted from the two starting points.
fn overlap(dst_len: u32, dst_from: u32, src_len: u32, src_from: u32) -> (n: u32)
    ensures
        n == if dst_from >= dst_len || src_from >= src_len {
            0
        } else if dst_len - dst_from <= src_len - src_from {
            dst_len - dst_from
        } else {
            src_len - src_from
        },
{
    if dst_from >= dst_len || src_from >= src_len {
        0
    } else if dst_len - dst_from <= src_len - src_from {
        dst_len - dst_from
    } else {
        src_len - src_from
    }
}

/// Copies into `dst` the window of `src` that starts at column `src_x` and
/// row `src_y`, placing it at column `dst_x` and row `dst_y`. The copy stops
/// at the first edge that it meets in either plane.
pub fn copy_window(
    src: &Vec<u8>,
    sw: u32,
    sh: u32,
    dst: &mut Vec<u8>,
    dw: u32,
    dh: u32,
    src_x: u32,
    src_y: u32,
    dst_x: u32,
    dst_y: u32,
)
    requires
        src@.len() == sw as int * sh as int,
        old(dst)@.len() == dw as int * dh as int,
    ensures
        window_copied(
            src@,
            sw as int,
            sh as int,
            old(dst)@,
            final(dst)@,
            dw as int,
            dh as int,
            src_x as int,
            src_y as int,
            dst_x as int,
            dst_y as int,
        ),
{
    let rows = overlap(dh, dst_y, sh, src_y);
    let cols = overlap(dw, dst_x, sw, src_x);
    let src_len = src.len();
    let dst_len = dst.len();
    let ghost before = dst@;
    let ghost left = src_x as int - dst_x as int;
    let ghost top = src_y as int - dst_y as int;
    if rows == 0 || cols == 0 {
        return ;
    }
    let mut k: u32 = 0;
    while k < rows
        invariant
            0 <= k <= rows,
            rows > 0,
            cols > 0,
            dst_y + rows <= dh,
            src_y + rows <= sh,
            dst_x + cols <= dw,
            src_x + cols <= sw,
            rows == dh - dst_y || rows == sh - src_y,
            cols == dw - dst_x || cols == sw - src_x,
            left == src_x - dst_x,
            top == src_y - dst_y,
            src@.len() == sw as int * sh as int,
            dst@.len() == dw as int * dh as int,
            src@.len() == src_len,
            dst@.len() == dst_len,
            before.len() == dst@.len(),
            forall|r: int, c: int|
                0 <= r < dh && 0 <= c < dw ==> #[trigger] dst@[at(dw as int, r, c)] == (if dst_y
                    <= r < dst_y + k && dst_x <= c < dst_x + cols {
                    src@[at(sw as int, top + r, left + c)]
                } else {
                    before[at(dw as int, r, c)]
                }),
        decreases rows - k,
    {
        let mut j: u32 = 0;
        while j < cols
            invariant
                0 <= j <= cols,
                0 <= k < rows,
                dst_y + rows <= dh,
                src_y + rows <= sh,
                dst_x + cols <= dw,
                src_x + cols <= sw,
                left == src_x - dst_x,
                top == src_y - dst_y,
                src@.len() == sw as int * sh as int,
                dst@.len() == dw as int * dh as int,
                src@.len() == src_len,
                dst@.len() == dst_len,
                before.len() == dst@.len(),
                forall|r: int, c: int|
                    0 <= r < dh && 0 <= c < dw ==> #[trigger] dst@[at(dw as int, r, c)] == (if (
                    dst_y <= r < dst_y + k && dst_x <= c < dst_x + cols) || (r == dst_y + k
                        && dst_x <= c < dst_x + j) {
                        src@[at(sw as int, top + r, left + c)]
                    } else {
                        before[at(dw as int, r, c)]
                    }),
            decreases cols - j,
        {
            let ghost dr = dst_y as int + k as int;
            let ghost dc = dst_x as int + j as int;
            let ghost sr = src_y as int + k as int;
            let ghost sc = src_x as int + j as int;
            proof {
                lemma_at_bounds(dw as int, dh as int, dr, dc);
                lemma_at_bounds(sw as int, sh as int, sr, sc);
                assert(0 <= sr * sw <= 0xffff_ffff * 0xffff_ffff) by (nonlinear_arith)
                    requires
                        0 <= sr <= 0xffff_ffff,
                        0 <= sw <= 0xffff_ffff,
                ;
                assert(0 <= dr * dw <= 0xffff_ffff * 0xffff_ffff) by (nonlinear_arith)
                    requires
                        0 <= dr <= 0xffff_ffff,
                        0 <= dw <= 0xffff_ffff,
                ;
            }
            let from: usize = ((src_y + k) as u64 * sw as u64 + (src_x + j) as u64) as usize;
            let to: usize = ((dst_y + k) as u64 * dw as u64 + (dst_x + j) as u64) as usize;
            assert(from == at(sw as int, sr, sc));
            assert(to == at(dw as int, dr, dc));
            let ghost prev = dst@;
            let value = src[from];
            dst.set(to, value);
            proof {
                assert forall|r: int, c: int| 0 <= r < dh && 0 <= c < dw implies #[trigger] dst@[at(
                    dw as int,
                    r,
                    c,
                )] == (if (dst_y <= r < dst_y + k && dst_x <= c < dst_x + cols) || (r == dst_y + k
                    && dst_x <= c < dst_x + (j + 1)) {
                    src@[at(sw as int, top + r, left + c)]
                } else {
                    before[at(dw as int, r, c)]
                }) by {
                    lemma_at_bounds(dw as int, dh as int, r, c);
                    if at(dw as int, r, c) == at(dw as int, dr, dc) {
                        lemma_at_injective(dw as int, r, c, dr, dc);
                    } else {
                        assert(dst@[at(dw as int, r, c)] == prev[at(dw as int, r, c)]);
                    }
                }
            }
            j += 1;
        }
        k += 1;
    }
    proof {
        assert forall|r: int, c: int| 0 <= r < dh && 0 <= c < dw implies #[trigger] dst@[at(
            dw as int,
            r,
            c,
        )] == (if dst_y <= r && dst_x <= c && r - dst_y + src_y < sh && c - dst_x + src_x < sw {
            src@[at(sw as int, r - dst_y + src_y, c - dst_x + src_x)]
        } else {
            before[at(dw as int, r, c)]
        }) by {}
    }
}

/// A window that starts at the edge of the source or of the destination
/// along each axis is the crop whose top-left corner is where the source
/// starts, seen from the destination.
pub proof fn lemma_window_is_crop(
    src: Seq<u8>,
    sw: int,
    sh: int,
    before: Seq<u8>,
    after: Seq<u8>,
    dw: int,
    dh: int,
    src_x: int,
    src_y: int,
    dst_x: int,
    dst_y: int,
)
    requires
        window_copied(src, sw, sh, before, after, dw, dh, src_x, src_y, dst_x, dst_y),
        0 <= src_x && 0 <= dst_x && 0 <= src_y && 0 <= dst_y,
        src_x == 0 || dst_x == 0,
        src_y == 0 || dst_y == 0,
    ensures
        plane_cropped(src, sw, sh, before, after, dw, dh, src_x - dst_x, src_y - dst_y),
{
    assert forall|r: int, c: int| 0 <= r < dh && 0 <= c < dw implies #[trigger] after[at(dw, r, c)]
        == (if 0 <= src_y - dst_y + r < sh && 0 <= src_x - dst_x + c < sw {
        src[at(sw, src_y - dst_y + r, src_x - dst_x + c)]
    } else {
        before[at(dw, r, c)]
    }) by {}
}

/// `after` is `before` with the rectangle of rows `r0` to `r1` and columns
/// `c0` to `c1` (upper bounds excluded) set to `value`.
pub open spec fn plane_painted(
    before: Seq<u8>,
    after: Seq<u8>,
    w: int,
    h: int,
    r0: int,
    r1: int,
    c0: int,
    c1: int,
    value: u8,
) -> bool {
    &&& after.len() == before.len()
    &&& forall|r: int, c: int|
        0 <= r < h && 0 <= c < w ==> #[trigger] after[at(w, r, c)] == (if r0 <= r < r1 && c0 <= c
            < c1 {
            value
        } else {
            before[at(w, r, c)]
        })
}

/// Sets the pixels of a rectangle to `value`.
pub fn paint_rect(dst: &mut Vec<u8>, w: u32, h: u32, r0: u32, r1: u32, c0: u32, c1: u32, value: u8)
    requires
        old(dst)@.len() == w as int * h as int,
        r0 <= r1 <= h,
        c0 <= c1 <= w,
    ensures
        plane_painted(
            old(dst)@,
            final(dst)@,
            w as int,
            h as int,
            r0 as int,
            r1 as int,
            c0 as int,
            c1 as int,
            value,
        ),
{
    let ghost before = dst@;
    let dst_len = dst.len();
    let mut r: u32 = r0;
    while r < r1
        invariant
            r0 <= r <= r1 <= h,
            c0 <= c1 <= w,
            dst@.len() == w as int * h as int,
            dst@.len() == dst_len,
            before.len() == dst@.len(),
            forall|y: int, x: int|
                0 <= y < h && 0 <= x < w ==> #[trigger] dst@[at(w as int, y, x)] == (if r0 <= y < r
                    && c0 <= x < c1 {
                    value
                } else {
                    before[at(w as int, y, x)]
                }),
        decreases r1 - r,
    {
        let mut c: u32 = c0;
        while c < c1
            invariant
                r0 <= r < r1 <= h,
                c0 <= c <= c1 <= w,
                dst@.len() == w as int * h as int,
                dst@.len() == dst_len,
                before.len() == dst@.len(),
                forall|y: int, x: int|
                    0 <= y < h && 0 <= x < w ==> #[trigger] dst@[at(w as int, y, x)] == (if (r0
                        <= y < r && c0 <= x < c1) || (y == r && c0 <= x < c) {
                        value
                    } else {
                        before[at(w as int, y, x)]
                    }),
            decreases c1 - c,
        {
            proof {
                lemma_at_bounds(w as int, h as int, r as int, c as int);
                assert(0 <= r * w <= 0xffff_ffff * 0xffff_ffff) by (nonlinear_arith)
                    requires
                        0 <= r <= 0xffff_ffff,
                        0 <= w <= 0xffff_ffff,
                ;
            }
            let to: usize = (r as u64 * w as u64 + c as u64) as usize;
            assert(to == at(w as int, r as int, c as int));
            let ghost prev = dst@;
            dst.set(to, value);
            proof {
                assert forall|y: int, x: int| 0 <= y < h && 0 <= x < w implies #[trigger] dst@[at(
                    w as int,
                    y,
                    x,
                )] == (if (r0 <= y < r && c0 <= x < c1) || (y == r && c0 <= x < c + 1) {
                    value
                } else {
                    before[at(w as int, y, x)]
                }) by {
                    lemma_at_bounds(w as int, h as int, y, x);
                    if at(w as int, y, x) == at(w as int, r as int, c as int) {
                        lemma_at_injective(w as int, y, x, r as int, c as int);
                    } else {
                        assert(dst@[at(w as int, y, x)] == prev[at(w as int, y, x)]);
                    }
                }
            }
            c += 1;
        }
        r += 1;
    }
}

} // verus!

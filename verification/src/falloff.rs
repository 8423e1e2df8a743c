//! Tables of how far each cell of a grid lies from a centre.
//!
//! The quality of a foveated picture falls off with the distance from the
//! gaze, and the opacity of the foreground falls off with the distance from
//! its centre. Both are functions of the tables made here, one value for each
//! cell of a grid, row by row.

use vstd::prelude::*;
use crate::plane::{at, lemma_at_bounds};

verus! {

/// What a table holds for each cell.
#[derive(Copy, Clone, Debug, PartialEq, Eq, Structural)]
pub enum Shape {
    /// The square of the cell's distance from the centre.
    Distance,
    /// 0 for a cell that is less than this many cells away from the centre
    /// along both axes, and 1 for every other cell.
    Step(i32),
}

/// The square of the distance between cell (`i`, `j`) and cell (`cx`, `cy`).
pub open spec fn squared_distance(cx: u32, cy: u32, i: int, j: int) -> int {
    (i - cx) * (i - cx) + (j - cy) * (j - cy)
}

/// The square of the distance between cell (`i`, `j`) and the centre cell of
/// a patch of side `side`.
pub open spec fn centre_distance(side: u32, i: int, j: int) -> int {
    squared_distance(side / 2, side / 2, i, j)
}

/// The distance between two cells along an axis.
pub open spec fn axis_distance(c: u32, i: int) -> int {
    if i >= c {
        i - c
    } else {
        c - i
    }
}

/// The value of cell (`i`, `j`) in a table around (`cx`, `cy`). A squared
/// distance above `u64::MAX` is held as `u64::MAX`.
pub open spec fn cell_value(shape: Shape, cx: u32, cy: u32, i: int, j: int) -> u64 {
    match shape {
        Shape::Distance => if squared_distance(cx, cy, i, j) > u64::MAX {
            u64::MAX
        } else {
            squared_distance(cx, cy, i, j) as u64
        },
        Shape::Step(reach) => if axis_distance(cx, i) < reach && axis_distance(cy, j) < reach {
            0
        } else {
            1
        },
    }
}

/// Computes the value of a cell.
fn cell(shape: Shape, cx: u32, cy: u32, i: u32, j: u32) -> (v: u64)
    ensures
        v == cell_value(shape, cx, cy, i as int, j as int),
{
    let dx: u64 = if i >= cx {
        (i - cx) as u64
    } else {
        (cx - i) as u64
    };
    let dy: u64 = if j >= cy {
        (j - cy) as u64
    } else {
        (cy - j) as u64
    };
    match shape {
        Shape::Distance => {
            assert(dx * dx == (i - cx) * (i - cx)) by (nonlinear_arith)
                requires
                    dx == i - cx || dx == cx - i,
            ;
            assert(dy * dy == (j - cy) * (j - cy)) by (nonlinear_arith)
                requires
                    dy == j - cy || dy == cy - j,
            ;
            assert(0 <= dx * dx <= 0xffff_ffff * 0xffff_ffff) by (nonlinear_arith)
                requires
                    0 <= dx <= 0xffff_ffff,
            ;
            assert(0 <= dy * dy <= 0xffff_ffff * 0xffff_ffff) by (nonlinear_arith)
                requires
                    0 <= dy <= 0xffff_ffff,
            ;
            let a: u64 = dx * dx;
            let b: u64 = dy * dy;
            if b > u64::MAX - a {
                u64::MAX
            } else {
                a + b
            }
        },
        Shape::Step(reach) => if (dx as i64) < reach as i64 && (dy as i64) < reach as i64 {
            0
        } else {
            1
        },
    }
}

/// Makes the table for a grid of `cols` by `rows` cells around the cell
/// (`cx`, `cy`). There is none where the table does not fit in memory.
pub fn offset_table(cols: u32, rows: u32, cx: u32, cy: u32, shape: Shape) -> (r: Option<Vec<u64>>)
    ensures
        r is Some == (cols as int * rows as int <= usize::MAX),
        r matches Some(table) ==> {
            &&& table@.len() == cols as int * rows as int
            &&& forall|i: int, j: int|
                0 <= i < cols && 0 <= j < rows ==> #[trigger] table@[at(cols as int, j, i)]
                    == cell_value(shape, cx, cy, i, j)
        },
{
    assert(0 <= cols as int * rows as int <= 0xffff_ffff * 0xffff_ffff) by (nonlinear_arith)
        requires
            0 <= cols <= 0xffff_ffff,
            0 <= rows <= 0xffff_ffff,
    ;
    let cells: u64 = cols as u64 * rows as u64;
    if cells > usize::MAX as u64 {
        return None;
    }
    let mut table: Vec<u64> = Vec::new();
    let mut j: u32 = 0;
    assert(0 * cols == 0) by (nonlinear_arith);
    while j < rows
        invariant
            0 <= j <= rows,
            table@.len() == j as int * cols as int,
            forall|x: int, y: int|
                0 <= x < cols && 0 <= y < j ==> #[trigger] table@[at(cols as int, y, x)]
                    == cell_value(shape, cx, cy, x, y),
        decreases rows - j,
    {
        let mut i: u32 = 0;
        while i < cols
            invariant
                0 <= i <= cols,
                0 <= j < rows,
                table@.len() == j as int * cols as int + i,
                forall|x: int, y: int|
                    0 <= x < cols && (0 <= y < j || (y == j && x < i)) ==> #[trigger] table@[at(
                        cols as int,
                        y,
                        x,
                    )] == cell_value(shape, cx, cy, x, y),
            decreases cols - i,
        {
            let value = cell(shape, cx, cy, i, j);
            let ghost prev = table@;
            table.push(value);
            proof {
                assert forall|x: int, y: int|
                    0 <= x < cols && (0 <= y < j || (y == j && x < i + 1)) implies #[trigger] table@[at(
                    cols as int,
                    y,
                    x,
                )] == cell_value(shape, cx, cy, x, y) by {
                    if y == j && x == i {
                        assert(at(cols as int, y, x) == prev.len());
                    } else {
                        if y < j {
                            lemma_at_bounds(cols as int, j as int, y, x);
                            assert(cols * j == j * cols) by (nonlinear_arith);
                        }
                        assert(at(cols as int, y, x) < prev.len());
                        assert(table@[at(cols as int, y, x)] == prev[at(cols as int, y, x)]);
                    }
                }
            }
            i += 1;
        }
        assert((j + 1) * cols == j * cols + cols) by (nonlinear_arith);
        j += 1;
    }
    assert(rows * cols == cols * rows) by (nonlinear_arith);
    Some(table)
}

/// Inside a patch, the square of the distance from the centre cell is a
/// `u64`.
pub proof fn lemma_centre_distance_fits(side: u32, i: int, j: int)
    requires
        0 <= i < side,
        0 <= j < side,
    ensures
        0 <= centre_distance(side, i, j) <= u64::MAX,
        cell_value(Shape::Distance, side / 2, side / 2, i, j) == centre_distance(side, i, j),
{
    let c = side as int / 2;
    assert(0 <= (i - c) * (i - c) <= 0x8000_0000 * 0x8000_0000) by (nonlinear_arith)
        requires
            -0x8000_0000 <= i - c <= 0x8000_0000,
    ;
    assert(0 <= (j - c) * (j - c) <= 0x8000_0000 * 0x8000_0000) by (nonlinear_arith)
        requires
            -0x8000_0000 <= j - c <= 0x8000_0000,
    ;
}

/// Alpha mask symmetry: the distance from the centre is the same for a cell
/// and for its mirror images about the centre on both axes, and it is
/// smallest, namely 0, at the centre.
pub proof fn lemma_alpha_symmetry(side: u32, i: int, j: int)
    ensures
        centre_distance(side, i, j) == centre_distance(side, 2 * (side / 2) - i, j),
        centre_distance(side, i, j) == centre_distance(side, i, 2 * (side / 2) - j),
        centre_distance(side, i, j) == centre_distance(side, j, i),
        centre_distance(side, side as int / 2, side as int / 2) == 0,
        centre_distance(side, i, j) >= 0,
{
    let c = side as int / 2;
    assert((i - c) * (i - c) == (2 * c - i - c) * (2 * c - i - c)) by (nonlinear_arith);
    assert((j - c) * (j - c) == (2 * c - j - c) * (2 * c - j - c)) by (nonlinear_arith);
    assert((i - c) * (i - c) >= 0) by (nonlinear_arith);
    assert((j - c) * (j - c) >= 0) by (nonlinear_arith);
}

/// Alpha mask symmetry for every mask that falls with the distance: such a
/// mask has the same value at a cell and at its mirror images about the
/// centre on both axes, and no value above the one at the centre.
pub proof fn lemma_mask_symmetry(side: u32, alpha: spec_fn(int) -> int, i: int, j: int)
    requires
        forall|a: int, b: int| 0 <= a <= b ==> #[trigger] alpha(a) >= #[trigger] alpha(b),
    ensures
        alpha(centre_distance(side, i, j)) == alpha(centre_distance(side, 2 * (side / 2) - i, j)),
        alpha(centre_distance(side, i, j)) == alpha(centre_distance(side, i, 2 * (side / 2) - j)),
        alpha(centre_distance(side, side as int / 2, side as int / 2)) >= alpha(
            centre_distance(side, i, j),
        ),
{
    lemma_alpha_symmetry(side, i, j);
}

} // verus!

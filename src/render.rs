//! The sequence of terminal operations that paints a grid: one blank cell per
//! value, a move to the start of each row, and a background color change only
//! where the value differs from the previous cell.
use vstd::prelude::*;
use crate::color::{color_of, scale_color};
use crate::grid::bounded_by;

verus! {

/// One operation on the terminal.
#[derive(Clone, Copy, Debug, PartialEq, Eq, Structural)]
pub enum DrawOp {
    /// Move the cursor to the first column of this row.
    RowStart(usize),
    /// Set the background color of the cells that follow.
    Background(u8, u8, u8),
    /// Paint one cell with the current background.
    Blank,
}

/// The operations for cell `i` of `grid`.
pub open spec fn cell_ops(grid: Seq<u16>, width: nat, max_value: u16, i: int) -> Seq<DrawOp> {
    let start: Seq<DrawOp> = if i % (width as int) == 0 {
        seq![DrawOp::RowStart((i / (width as int)) as usize)]
    } else {
        Seq::empty()
    };
    let paint: Seq<DrawOp> = if i == 0 || grid[i] != grid[i - 1] {
        let c = color_of(grid[i] as int, max_value as int);
        seq![DrawOp::Background(c.0, c.1, c.2)]
    } else {
        Seq::empty()
    };
    start + paint + seq![DrawOp::Blank]
}

/// The operations for the first `n` cells of `grid`.
pub open spec fn plan_prefix(grid: Seq<u16>, width: nat, max_value: u16, n: nat) -> Seq<DrawOp>
    decreases n,
{
    if n == 0 {
        Seq::empty()
    } else {
        plan_prefix(grid, width, max_value, (n - 1) as nat) + cell_ops(
            grid,
            width,
            max_value,
            n - 1,
        )
    }
}

/// The operations that paint all of `grid`, `width` cells to a row.
pub open spec fn draw_plan(grid: Seq<u16>, width: nat, max_value: u16) -> Seq<DrawOp> {
    plan_prefix(grid, width, max_value, grid.len())
}

/// Lists the operations that paint `grid`, `width` cells to a row, with
/// colors scaled against `max_value`.
pub fn plan_draw(grid: &Vec<u16>, width: usize, max_value: u16) -> (r: Vec<DrawOp>)
    requires
        width > 0 || grid@.len() == 0,
        bounded_by(grid@, max_value),
        grid@.len() * 3 <= usize::MAX,
    ensures
        r@ == draw_plan(grid@, width as nat, max_value),
{
    let mut ops: Vec<DrawOp> = Vec::new();
    let mut prev_value: u16 = 0;
    let mut index: usize = 0;
    while index < grid.len()
        invariant
            width > 0 || grid@.len() == 0,
            bounded_by(grid@, max_value),
            index <= grid@.len(),
            index > 0 ==> prev_value == grid@[index - 1],
            ops@ == plan_prefix(grid@, width as nat, max_value, index as nat),
        decreases grid@.len() - index,
    {
        let ghost before = ops@;
        if index % width == 0 {
            ops.push(DrawOp::RowStart(index / width));
        }
        let value = grid[index];
        if index == 0 || value != prev_value {
            let c = scale_color(value, max_value);
            ops.push(DrawOp::Background(c.0, c.1, c.2));
        }
        prev_value = value;
        ops.push(DrawOp::Blank);
        assert(ops@ == before + cell_ops(grid@, width as nat, max_value, index as int));
        index = index + 1;
    }
    ops
}

} // verus!

//! Row-major sweep of a `width` by `height` grid of instability values, with
//! the largest value found in the same pass.
use vstd::prelude::*;

verus! {

/// Every value of `grid` is at most `top`.
pub open spec fn bounded_by(grid: Seq<u16>, top: u16) -> bool {
    forall|i: int| 0 <= i < grid.len() ==> grid[i] <= top
}

/// `top` is the largest value of `grid`, or `0` for an empty grid.
pub open spec fn is_max_of(grid: Seq<u16>, top: u16) -> bool {
    &&& bounded_by(grid, top)
    &&& (top == 0 || exists|i: int| 0 <= i < grid.len() && grid[i] == top)
}

/// Fills a grid of `width * height` cells in row-major order: cell `i` holds
/// what `cell` returns for row `i / width` and column `i % width`. Returns the
/// grid and its largest value (`0` when every cell is `0` or there are none).
pub fn sweep_grid<F: Fn(usize, usize) -> u16>(width: usize, height: usize, cell: F) -> (r: (
    Vec<u16>,
    u16,
))
    requires
        width * height <= usize::MAX,
        forall|row: usize, col: usize| row < height && col < width ==> cell.requires((row, col)),
    ensures
        r.0@.len() == width * height,
        forall|i: int|
            0 <= i < r.0@.len() ==> cell.ensures(
                ((i / width as int) as usize, (i % width as int) as usize),
                #[trigger] r.0@[i],
            ),
        is_max_of(r.0@, r.1),
{
    let total = width * height;
    let mut grid: Vec<u16> = Vec::with_capacity(total);
    let mut max_value: u16 = 0;
    let mut i: usize = 0;
    while i < total
        invariant
            total == width * height,
            i <= total,
            grid@.len() == i,
            forall|row: usize, col: usize|
                row < height && col < width ==> cell.requires((row, col)),
            forall|j: int|
                0 <= j < i ==> cell.ensures(
                    ((j / width as int) as usize, (j % width as int) as usize),
                    #[trigger] grid@[j],
                ),
            is_max_of(grid@, max_value),
        decreases total - i,
    {
        assert(width > 0) by (nonlinear_arith)
            requires i < total, total == width * height;
        let row = i / width;
        let col = i % width;
        assert(row < height) by (nonlinear_arith)
            requires row == i / width, i < width * height, width > 0;
        let value = cell(row, col);
        let ghost before = grid@;
        let ghost old_max = max_value;
        if value > max_value {
            max_value = value;
        }
        grid.push(value);
        assert(grid@[i as int] == value);
        assert(forall|j: int| 0 <= j < i ==> grid@[j] == before[j]);
        proof {
            if max_value != 0 && max_value != value {
                let w = choose|w: int| 0 <= w < before.len() && before[w] == old_max;
                assert(grid@[w] == max_value);
            }
        }
        i = i + 1;
    }
    (grid, max_value)
}

} // verus!

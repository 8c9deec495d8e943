//! Counting the living neighbours of a cell in a frozen buffer.

use vstd::prelude::*;
use crate::border_policy::BorderPolicy;
use crate::cell_state::CellState;

verus! {

/// The position of cell `(x, y)` in a row-major buffer of rows `width` long.
pub open spec fn cell_index(x: int, y: int, width: int) -> int {
    y * width + x
}

/// Whether `(x, y)` has a neighbour at offset `(dx, dy)` that is alive in
/// `grid`. An absent neighbour is not alive.
pub open spec fn neighbour_alive(
    grid: Seq<CellState>,
    x: int,
    y: int,
    dx: int,
    dy: int,
    width: int,
    height: int,
    policy: BorderPolicy,
) -> bool {
    match policy.resolved(x, y, dx, dy, width, height) {
        Some((nx, ny)) => grid[cell_index(nx, ny, width)] is Alive,
        None => false,
    }
}

/// One for a living neighbour at offset `(dx, dy)`, zero otherwise.
pub open spec fn neighbour_count(
    grid: Seq<CellState>,
    x: int,
    y: int,
    dx: int,
    dy: int,
    width: int,
    height: int,
    policy: BorderPolicy,
) -> nat {
    if neighbour_alive(grid, x, y, dx, dy, width, height, policy) {
        1
    } else {
        0
    }
}

/// The number of the eight offsets around `(x, y)` at which a living
/// neighbour is found. Under `Wrap` on a narrow grid one cell may be found at
/// several offsets, and counts once for each.
pub open spec fn alive_neighbours(
    grid: Seq<CellState>,
    x: int,
    y: int,
    width: int,
    height: int,
    policy: BorderPolicy,
) -> nat {
    neighbour_count(grid, x, y, -1, -1, width, height, policy)
        + neighbour_count(grid, x, y, 0, -1, width, height, policy)
        + neighbour_count(grid, x, y, 1, -1, width, height, policy)
        + neighbour_count(grid, x, y, -1, 0, width, height, policy)
        + neighbour_count(grid, x, y, 1, 0, width, height, policy)
        + neighbour_count(grid, x, y, -1, 1, width, height, policy)
        + neighbour_count(grid, x, y, 0, 1, width, height, policy)
        + neighbour_count(grid, x, y, 1, 1, width, height, policy)
}

/// The living neighbours among the first `visited` offsets in row-major
/// order, the centre left out.
spec fn counted(
    grid: Seq<CellState>,
    x: int,
    y: int,
    width: int,
    height: int,
    policy: BorderPolicy,
    visited: int,
) -> nat
    decreases visited,
{
    if visited <= 0 {
        0
    } else {
        let last = visited - 1;
        let rest = counted(grid, x, y, width, height, policy, last);
        if last == 4 {
            rest
        } else {
            rest + neighbour_count(grid, x, y, last % 3 - 1, last / 3 - 1, width, height, policy)
        }
    }
}

proof fn lemma_counted_all(
    grid: Seq<CellState>,
    x: int,
    y: int,
    width: int,
    height: int,
    policy: BorderPolicy,
)
    ensures
        counted(grid, x, y, width, height, policy, 9) == alive_neighbours(
            grid,
            x,
            y,
            width,
            height,
            policy,
        ),
{
    reveal_with_fuel(counted, 10);
}

/// No cell has more than eight living neighbours, wherever it lies and
/// whatever the policy.
pub proof fn lemma_alive_neighbours_bounded(
    grid: Seq<CellState>,
    x: int,
    y: int,
    width: int,
    height: int,
    policy: BorderPolicy,
)
    ensures
        alive_neighbours(grid, x, y, width, height, policy) <= 8,
{
}

/// A cell is in the grid, and the buffer holds the whole grid.
pub open spec fn in_grid(grid: Seq<CellState>, x: int, y: int, width: int, height: int) -> bool {
    &&& 0 <= x < width
    &&& 0 <= y < height
    &&& grid.len() == width * height
}

/// The index of a cell of the grid lies in its buffer.
pub proof fn lemma_cell_index_in_buffer(x: int, y: int, width: int, height: int)
    requires
        0 <= x < width,
        0 <= y < height,
    ensures
        0 <= cell_index(x, y, width) < width * height,
{
    assert(y * width + x < width * height) by (nonlinear_arith)
        requires
            0 <= x < width,
            0 <= y < height,
    {
        assert(y * width + width == (y + 1) * width);
        assert((y + 1) * width <= height * width);
    }
    assert(0 <= y * width) by (nonlinear_arith)
        requires
            0 <= y,
            0 < width,
    ;
}

/// Counts the living neighbours of `(x, y)` in `grid`, going through the
/// eight offsets row by row.
pub fn count_alive_neighbours(
    grid: &Vec<CellState>,
    x: usize,
    y: usize,
    width: usize,
    height: usize,
    policy: BorderPolicy,
) -> (count: usize)
    requires
        in_grid(grid@, x as int, y as int, width as int, height as int),
    ensures
        count == alive_neighbours(grid@, x as int, y as int, width as int, height as int, policy),
        count <= 8,
{
    let mut count: usize = 0;
    let mut yy: i32 = -1;
    while yy < 2
        invariant
            -1 <= yy <= 2,
            in_grid(grid@, x as int, y as int, width as int, height as int),
            count == counted(
                grid@,
                x as int,
                y as int,
                width as int,
                height as int,
                policy,
                3 * (yy + 1),
            ),
            count <= 3 * (yy + 1),
        decreases 2 - yy,
    {
        let mut xx: i32 = -1;
        while xx < 2
            invariant
                -1 <= yy < 2,
                -1 <= xx <= 2,
                in_grid(grid@, x as int, y as int, width as int, height as int),
                count == counted(
                    grid@,
                    x as int,
                    y as int,
                    width as int,
                    height as int,
                    policy,
                    3 * (yy + 1) + (xx + 1),
                ),
                count <= 3 * (yy + 1) + (xx + 1),
            decreases 2 - xx,
        {
            if !(xx == 0 && yy == 0) {
                match policy.resolve(x, y, xx, yy, width, height) {
                    Some((nx, ny)) => {
                        proof {
                            lemma_cell_index_in_buffer(
                                nx as int,
                                ny as int,
                                width as int,
                                height as int,
                            );
                            assert(grid.len() == width * height);
                        }
                        let index = ny * width + nx;
                        if grid[index].is_alive() {
                            count = count + 1;
                        }
                    },
                    None => {},
                }
            }
            xx = xx + 1;
        }
        yy = yy + 1;
    }
    proof {
        lemma_counted_all(grid@, x as int, y as int, width as int, height as int, policy);
    }
    count
}

} // verus!

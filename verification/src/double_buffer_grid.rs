//! Two cell buffers of one size and a generation counter.
//!
//! The parity of the counter tells the buffers apart: the read buffer is the
//! one at `cycle % 2`, the write buffer is the other one, and the write
//! buffer is also the one to render. A step first advances the counter, so
//! that the generation on display becomes the frozen read buffer, and then
//! fills the write buffer with the generation that follows it.

use vstd::prelude::*;
use vstd::arithmetic::div_mod::lemma_fundamental_div_mod_converse;
use crate::border_policy::BorderPolicy;
use crate::cell_state::{next_state, CellState};
use crate::neighbours::{
    alive_neighbours,
    cell_index,
    count_alive_neighbours,
    lemma_cell_index_in_buffer,
};

verus! {

pub struct DoubleBufferGrid {
    grids: [Vec<CellState>; 2],
    cycle: usize,
    width: usize,
    height: usize,
}

/// The cell that a random draw seeds: alive and newly born, or dead.
pub open spec fn seed_state(alive: bool) -> CellState {
    if alive {
        CellState::Alive(0)
    } else {
        CellState::Dead
    }
}

/// Every cell of `grid` is one that a random draw seeds: dead, or alive at
/// age 0.
pub open spec fn is_seed(grid: Seq<CellState>) -> bool {
    forall|i: int|
        0 <= i < grid.len() ==> #[trigger] grid[i] == CellState::Dead || grid[i]
            == CellState::Alive(0)
}

/// Every living cell of `grid` can grow one generation older.
pub open spec fn all_can_age(grid: Seq<CellState>) -> bool {
    forall|i: int| 0 <= i < grid.len() ==> (#[trigger] grid[i]).can_age()
}

/// The generation that follows `grid` on a board of `width` by `height`
/// cells: every cell changes by the rule of the game, given the number of
/// its living neighbours in `grid`.
pub open spec fn next_generation(
    grid: Seq<CellState>,
    width: int,
    height: int,
    policy: BorderPolicy,
) -> Seq<CellState> {
    Seq::new(
        (width * height) as nat,
        |i: int|
            next_state(
                grid[i],
                alive_neighbours(grid, i % width, i / width, width, height, policy) as int,
            ),
    )
}

/// Draws one boolean from `rand::random`, which samples the thread-local
/// generator. Nothing is claimed of the value drawn.
#[verifier::external_body]
fn random_bool() -> bool {
    rand::random()
}

impl DoubleBufferGrid {
    /// The contents of one of the two buffers, `index` being 0 or 1.
    pub closed spec fn buffer(self, index: int) -> Seq<CellState> {
        self.grids[index]@
    }

    /// The number of generations that the counter has advanced.
    pub closed spec fn cycle(self) -> nat {
        self.cycle as nat
    }

    pub closed spec fn width(self) -> nat {
        self.width as nat
    }

    pub closed spec fn height(self) -> nat {
        self.height as nat
    }

    pub open spec fn read_index(self) -> int {
        self.cycle() as int % 2
    }

    pub open spec fn write_index(self) -> int {
        (self.cycle() + 1) as int % 2
    }

    pub open spec fn read_grid(self) -> Seq<CellState> {
        self.buffer(self.read_index())
    }

    pub open spec fn write_grid(self) -> Seq<CellState> {
        self.buffer(self.write_index())
    }

    /// The buffer to render is the write buffer: between two steps it holds
    /// the generation that was completed last.
    pub open spec fn render_grid(self) -> Seq<CellState> {
        self.write_grid()
    }

    /// Both buffers hold one cell for each position of the grid.
    pub open spec fn wf(self) -> bool {
        &&& self.buffer(0).len() == self.width() * self.height()
        &&& self.buffer(1).len() == self.width() * self.height()
    }

    /// A step can be taken: the grid is well formed, the counter can advance,
    /// and no cell of the generation on display has reached the largest age.
    pub open spec fn step_defined(self) -> bool {
        &&& self.wf()
        &&& self.cycle() < usize::MAX
        &&& all_can_age(self.render_grid())
    }

    /// What one step under `policy` makes of a grid. The counter has advanced
    /// by one. The generation that was on display is kept, and is now the read
    /// buffer; the buffer to render holds the generation that follows it.
    pub open spec fn steps_to(self, next: DoubleBufferGrid, policy: BorderPolicy) -> bool {
        &&& next.wf()
        &&& next.width() == self.width()
        &&& next.height() == self.height()
        &&& next.cycle() == self.cycle() + 1
        &&& next.read_grid() == self.render_grid()
        &&& next.render_grid() == next_generation(
            self.render_grid(),
            self.width() as int,
            self.height() as int,
            policy,
        )
    }

    /// A grid of dead cells at generation 0.
    pub fn new(width: usize, height: usize) -> (grid: Self)
        requires
            width * height <= usize::MAX,
        ensures
            grid.wf(),
            grid.width() == width,
            grid.height() == height,
            grid.cycle() == 0,
            grid.buffer(0) == Seq::new((width * height) as nat, |i: int| CellState::Dead),
            grid.buffer(1) == grid.buffer(0),
    {
        let size = width * height;
        let grids = [vec![CellState::Dead; size], vec![CellState::Dead; size]];
        Self { grids, cycle: 0, width, height }
    }

    /// Writes the cell that a draw of `alive` seeds into both buffers at
    /// `index`.
    pub fn seed_cell(&mut self, index: usize, alive: bool)
        requires
            old(self).wf(),
            index < old(self).width() * old(self).height(),
        ensures
            final(self).buffer(0) == old(self).buffer(0).update(index as int, seed_state(alive)),
            final(self).buffer(1) == old(self).buffer(1).update(index as int, seed_state(alive)),
            final(self).cycle() == old(self).cycle(),
            final(self).width() == old(self).width(),
            final(self).height() == old(self).height(),
            final(self).wf(),
    {
        let state = if alive {
            CellState::Alive(0)
        } else {
            CellState::Dead
        };
        self.grids[0][index] = state;
        self.grids[1][index] = state;
    }

    /// Seeds every cell from a random draw of its own. Whatever is drawn,
    /// both buffers end up alike, and every living cell is newly born.
    pub fn randomize(&mut self)
        requires
            old(self).wf(),
        ensures
            final(self).wf(),
            final(self).cycle() == old(self).cycle(),
            final(self).width() == old(self).width(),
            final(self).height() == old(self).height(),
            final(self).buffer(0) == final(self).buffer(1),
            final(self).read_grid() == final(self).render_grid(),
            is_seed(final(self).render_grid()),
    {
        assert(self.grids[0].len() == self.width * self.height);
        let size = self.width * self.height;
        let mut i: usize = 0;
        while i < size
            invariant
                self.wf(),
                size == self.width() * self.height(),
                self.cycle() == old(self).cycle(),
                self.width() == old(self).width(),
                self.height() == old(self).height(),
                i <= size,
                forall|j: int|
                    0 <= j < i ==> {
                        &&& #[trigger] self.buffer(0)[j] == self.buffer(1)[j]
                        &&& (self.buffer(0)[j] == CellState::Dead || self.buffer(0)[j]
                            == CellState::Alive(0))
                    },
            decreases size - i,
        {
            let alive = random_bool();
            self.seed_cell(i, alive);
            i = i + 1;
        }
        assert(self.buffer(0) =~= self.buffer(1));
    }

    /// Advances the generation counter, which swaps the roles of the two
    /// buffers.
    pub fn add_cycle(&mut self)
        requires
            old(self).cycle() < usize::MAX,
        ensures
            final(self).cycle() == old(self).cycle() + 1,
            final(self).buffer(0) == old(self).buffer(0),
            final(self).buffer(1) == old(self).buffer(1),
            final(self).width() == old(self).width(),
            final(self).height() == old(self).height(),
            final(self).read_index() == old(self).write_index(),
            final(self).write_index() == old(self).read_index(),
    {
        self.cycle += 1;
    }

    /// The number of generations that the counter has advanced.
    pub fn current_generation(&self) -> (generation: usize)
        ensures
            generation == self.cycle(),
    {
        self.cycle
    }

    pub fn get_read_grid(&self) -> (grid: &Vec<CellState>)
        ensures
            grid@ == self.read_grid(),
    {
        let read_grid_index = self.cycle % 2;
        &self.grids[read_grid_index]
    }

    /// Lends the write buffer. What the borrower leaves in it is the write
    /// buffer afterwards; nothing else changes.
    pub fn get_write_grid(&mut self) -> (grid: &mut Vec<CellState>)
        ensures
            grid@ == old(self).write_grid(),
            final(self).write_grid() == final(grid)@,
            final(self).read_grid() == old(self).read_grid(),
            final(self).cycle() == old(self).cycle(),
            final(self).width() == old(self).width(),
            final(self).height() == old(self).height(),
    {
        let write_grid_index = 1 - self.cycle % 2;
        &mut self.grids[write_grid_index]
    }

    pub fn get_render_grid(&self) -> (grid: &Vec<CellState>)
        ensures
            grid@ == self.render_grid(),
    {
        let write_grid_index = 1 - self.cycle % 2;
        &self.grids[write_grid_index]
    }

    /// Counts the living neighbours of `(x, y)` in the read buffer.
    pub fn get_alive_neighbours_at_point(&self, x: usize, y: usize, policy: BorderPolicy) -> (count:
        usize)
        requires
            self.wf(),
            x < self.width(),
            y < self.height(),
        ensures
            count == alive_neighbours(
                self.read_grid(),
                x as int,
                y as int,
                self.width() as int,
                self.height() as int,
                policy,
            ),
            count <= 8,
    {
        count_alive_neighbours(self.get_read_grid(), x, y, self.width, self.height, policy)
    }

    /// Tests whether the grid is well formed.
    pub fn is_well_formed(&self) -> (ok: bool)
        ensures
            ok == self.wf(),
    {
        match self.width.checked_mul(self.height) {
            Some(size) => self.grids[0].len() == size && self.grids[1].len() == size,
            None => {
                assert(self.grids[0].len() <= usize::MAX);
                false
            },
        }
    }

    /// Tests whether a step can be taken.
    pub fn can_step(&self) -> (ok: bool)
        ensures
            ok == self.step_defined(),
    {
        if !self.is_well_formed() || self.cycle == usize::MAX {
            return false;
        }
        let grid = self.get_render_grid();
        let size = grid.len();
        let mut i: usize = 0;
        while i < size
            invariant
                grid@ == self.render_grid(),
                grid@.len() == size,
                i <= size,
                forall|j: int| 0 <= j < i ==> (#[trigger] grid@[j]).can_age(),
            decreases size - i,
        {
            match grid[i] {
                CellState::Alive(age) => {
                    if age == usize::MAX {
                        return false;
                    }
                },
                CellState::Dead => {},
            }
            i = i + 1;
        }
        true
    }

    /// Advances the grid by one generation. The counter advances first, so
    /// that the generation on display becomes the read buffer; every cell of
    /// the write buffer then receives its next state, computed from the read
    /// buffer alone. The buffer to render afterwards is the one just written.
    pub fn step(&mut self, policy: BorderPolicy)
        requires
            old(self).step_defined(),
        ensures
            old(self).steps_to(*final(self), policy),
            final(self).read_index() == old(self).write_index(),
            final(self).write_index() != old(self).write_index(),
    {
        let ghost input = self.render_grid();
        let ghost width = self.width() as int;
        let ghost height = self.height() as int;
        self.add_cycle();
        let mut y: usize = 0;
        while y < self.height
            invariant
                self.wf(),
                self.width() == width,
                self.height() == height,
                self.cycle() == old(self).cycle() + 1,
                self.read_grid() == input,
                all_can_age(input),
                y <= height,
                forall|i: int|
                    0 <= i < y * width ==> #[trigger] self.write_grid()[i] == next_generation(
                        input,
                        width,
                        height,
                        policy,
                    )[i],
            decreases height - y,
        {
            let mut x: usize = 0;
            while x < self.width
                invariant
                    self.wf(),
                    self.width() == width,
                    self.height() == height,
                    self.cycle() == old(self).cycle() + 1,
                    self.read_grid() == input,
                    all_can_age(input),
                    y < height,
                    x <= width,
                    forall|i: int|
                        0 <= i < y * width + x ==> #[trigger] self.write_grid()[i]
                            == next_generation(input, width, height, policy)[i],
                decreases width - x,
            {
                proof {
                    assert(self.grids[0].len() == width * height);
                    lemma_cell_index_in_buffer(x as int, y as int, width, height);
                    lemma_fundamental_div_mod_converse(
                        cell_index(x as int, y as int, width),
                        width,
                        y as int,
                        x as int,
                    );
                }
                let index = y * self.width + x;
                let alive_neighbours = self.get_alive_neighbours_at_point(x, y, policy);
                let cell = self.get_read_grid()[index];
                let next = cell.next(alive_neighbours);
                let write = self.get_write_grid();
                write[index] = next;
                x = x + 1;
            }
            assert(y * width + width == (y + 1) * width) by (nonlinear_arith);
            y = y + 1;
        }
        assert(y * width == width * height) by (nonlinear_arith)
            requires
                y == height,
        ;
        assert(self.render_grid() =~= next_generation(input, width, height, policy));
    }
}

/// A step is a function of the generation on display, the dimensions and the
/// policy: two grids that agree on these hold the same generation after one
/// step each, whatever else they went through before.
pub proof fn lemma_step_deterministic(
    first: DoubleBufferGrid,
    first_next: DoubleBufferGrid,
    second: DoubleBufferGrid,
    second_next: DoubleBufferGrid,
    policy: BorderPolicy,
)
    requires
        first.width() == second.width(),
        first.height() == second.height(),
        first.render_grid() == second.render_grid(),
        first.steps_to(first_next, policy),
        second.steps_to(second_next, policy),
    ensures
        first_next.render_grid() == second_next.render_grid(),
        first_next.read_grid() == second_next.read_grid(),
{
}

/// A step never writes the buffer that it reads: the buffer to render after
/// the step is not the one that held the generation on display before it,
/// which the step leaves as it found it, and the counter is one further.
pub proof fn lemma_step_swaps_buffers(
    grid: DoubleBufferGrid,
    next: DoubleBufferGrid,
    policy: BorderPolicy,
)
    requires
        grid.steps_to(next, policy),
    ensures
        next.write_index() != grid.write_index(),
        next.read_index() == grid.write_index(),
        next.buffer(grid.write_index()) == grid.buffer(grid.write_index()),
        next.cycle() == grid.cycle() + 1,
{
}

} // verus!

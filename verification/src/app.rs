//! The state of a simulation session: the grid, the policy at its borders,
//! and whether it is running.

use vstd::prelude::*;
use crate::border_policy::BorderPolicy;
use crate::double_buffer_grid::{is_seed, DoubleBufferGrid};
use crate::neighbours::alive_neighbours;
use crate::cell_state::CellState;
use crate::player_state::PlayerState;

verus! {

pub struct App {
    pub grids: DoubleBufferGrid,
    pub grid_width: usize,
    pub grid_height: usize,
    pub cycle_count: usize,
    pub border_policy: BorderPolicy,
    pub player_state: PlayerState,
    pub should_quit: bool,
}

impl App {
    /// The grid is well formed, and the session knows its dimensions.
    pub open spec fn wf(self) -> bool {
        &&& self.grids.wf()
        &&& self.grid_width == self.grids.width()
        &&& self.grid_height == self.grids.height()
    }

    /// An update can be made: a paused session takes none, and a running one
    /// needs room in its counter and a grid that can take a step.
    pub open spec fn update_defined(self) -> bool {
        self.player_state == PlayerState::Play ==> self.cycle_count < usize::MAX
            && self.grids.step_defined()
    }

    /// `next` is this session with a freshly seeded grid and its cycles
    /// counted from 0 again.
    pub open spec fn restarts_as(self, next: App) -> bool {
        &&& next.grids.wf()
        &&& next.grids.cycle() == self.grids.cycle()
        &&& next.grids.width() == self.grids.width()
        &&& next.grids.height() == self.grids.height()
        &&& next.grids.read_grid() == next.grids.render_grid()
        &&& is_seed(next.grids.render_grid())
        &&& next.cycle_count == 0
        &&& next.grid_width == self.grid_width
        &&& next.grid_height == self.grid_height
        &&& next.border_policy == self.border_policy
        &&& next.player_state == self.player_state
        &&& next.should_quit == self.should_quit
    }

    /// This session under the other border policy.
    pub open spec fn with_border_switched(self) -> App {
        App { border_policy: self.border_policy.switched(), ..self }
    }

    /// This session, paused if it ran and running if it was paused.
    pub open spec fn with_player_switched(self) -> App {
        App { player_state: self.player_state.switched(), ..self }
    }

    /// A paused session on a grid of dead cells, one cell for each column and
    /// row.
    pub fn new(width: u16, height: u16) -> (app: Self)
        ensures
            app.wf(),
            app.grid_width == width,
            app.grid_height == height,
            app.grids.cycle() == 0,
            app.grids.buffer(0) == Seq::new((width * height) as nat, |i: int| CellState::Dead),
            app.grids.buffer(1) == app.grids.buffer(0),
            app.cycle_count == 0,
            app.border_policy == BorderPolicy::Clamp,
            app.player_state == PlayerState::Pause,
            !app.should_quit,
    {
        let grid_width = width as usize;
        let grid_height = height as usize;
        assert(grid_width * grid_height <= usize::MAX) by (nonlinear_arith)
            requires
                grid_width <= 0xffff,
                grid_height <= 0xffff,
        ;
        let grids = DoubleBufferGrid::new(grid_width, grid_height);
        App {
            grids,
            grid_width,
            grid_height,
            cycle_count: 0,
            border_policy: BorderPolicy::Clamp,
            player_state: PlayerState::Pause,
            should_quit: false,
        }
    }

    pub fn randomize_cells(&mut self) -> (app: &mut Self)
        requires
            old(self).grids.wf(),
        ensures
            *final(self) == *final(app),
            app.grids.wf(),
            app.grids.cycle() == old(self).grids.cycle(),
            app.grids.width() == old(self).grids.width(),
            app.grids.height() == old(self).grids.height(),
            app.grids.read_grid() == app.grids.render_grid(),
            is_seed(app.grids.render_grid()),
            app.grid_width == old(self).grid_width,
            app.grid_height == old(self).grid_height,
            app.cycle_count == old(self).cycle_count,
            app.border_policy == old(self).border_policy,
            app.player_state == old(self).player_state,
            app.should_quit == old(self).should_quit,
    {
        self.grids.randomize();
        self
    }

    /// Counts the living neighbours of `(x, y)` under the policy of the
    /// session.
    pub fn get_alive_neighbours_at_point(&self, x: usize, y: usize) -> (count: usize)
        requires
            self.grids.wf(),
            x < self.grids.width(),
            y < self.grids.height(),
        ensures
            count == alive_neighbours(
                self.grids.read_grid(),
                x as int,
                y as int,
                self.grids.width() as int,
                self.grids.height() as int,
                self.border_policy,
            ),
            count <= 8,
    {
        self.grids.get_alive_neighbours_at_point(x, y, self.border_policy)
    }

    pub fn quit(&mut self)
        ensures
            *final(self) == (App { should_quit: true, ..*old(self) }),
    {
        self.should_quit = true;
    }

    /// Tests whether an update can be made.
    pub fn can_update(&self) -> (ok: bool)
        ensures
            ok == self.update_defined(),
    {
        match self.player_state {
            PlayerState::Pause => true,
            PlayerState::Play => self.cycle_count < usize::MAX && self.grids.can_step(),
        }
    }

    pub fn tick(&mut self)
        requires
            old(self).update_defined(),
        ensures
            old(self).updates_to(*final(self)),
    {
        self.logic_update();
    }

    /// What an update makes of a session. Paused, it stays as it is. Running,
    /// it counts one more cycle and its grid takes one step under its border
    /// policy.
    pub open spec fn updates_to(self, next: App) -> bool {
        match self.player_state {
            PlayerState::Pause => next == self,
            PlayerState::Play => {
                &&& next.cycle_count == self.cycle_count + 1
                &&& self.grids.steps_to(next.grids, self.border_policy)
                &&& next.grid_width == self.grid_width
                &&& next.grid_height == self.grid_height
                &&& next.border_policy == self.border_policy
                &&& next.player_state == self.player_state
                &&& next.should_quit == self.should_quit
            },
        }
    }

    /// Advances a running session by one generation.
    pub fn logic_update(&mut self)
        requires
            old(self).update_defined(),
        ensures
            old(self).updates_to(*final(self)),
    {
        match self.player_state {
            PlayerState::Play => {},
            PlayerState::Pause => {
                return ;
            },
        }
        self.cycle_count += 1;
        self.grids.step(self.border_policy);
    }
}

} // verus!

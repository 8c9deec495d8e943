//! The state of a single cell, and the rule by which it changes.

use vstd::prelude::*;

verus! {

/// A cell is dead, or alive with the number of generations it has survived
/// since it was born.
#[derive(Clone, Copy, Debug, PartialEq, Eq, Structural)]
pub enum CellState {
    Dead,
    Alive(usize),
}

/// The state that follows `cell` when `alive_neighbours` of its neighbours
/// are alive: a dead cell is born with age 0 on exactly three, a living cell
/// survives one generation older on two or three, every other cell is dead.
pub open spec fn next_state(cell: CellState, alive_neighbours: int) -> CellState {
    match cell {
        CellState::Dead => if alive_neighbours == 3 {
            CellState::Alive(0)
        } else {
            CellState::Dead
        },
        CellState::Alive(age) => if alive_neighbours == 2 || alive_neighbours == 3 {
            CellState::Alive((age + 1) as usize)
        } else {
            CellState::Dead
        },
    }
}

impl CellState {
    /// Whether the age of this cell can still grow by one.
    pub open spec fn can_age(self) -> bool {
        self matches CellState::Alive(age) ==> age < usize::MAX
    }

    pub fn dead() -> (cell: CellState)
        ensures
            cell == CellState::Dead,
    {
        CellState::Dead
    }

    pub fn alive_at_age(age: usize) -> (cell: CellState)
        ensures
            cell == CellState::Alive(age),
    {
        CellState::Alive(age)
    }

    pub fn is_alive(&self) -> (alive: bool)
        ensures
            alive == (*self is Alive),
    {
        match self {
            CellState::Alive(_) => true,
            CellState::Dead => false,
        }
    }

    /// Applies the rule of the game to one cell.
    pub fn next(&self, alive_neighbours: usize) -> (cell: CellState)
        requires
            self.can_age(),
        ensures
            cell == next_state(*self, alive_neighbours as int),
            *self is Dead ==> (cell == CellState::Alive(0) <==> alive_neighbours == 3),
            *self is Dead && alive_neighbours != 3 ==> cell == CellState::Dead,
            *self matches CellState::Alive(age) ==> (cell == CellState::Alive((age + 1) as usize) <==> (
                alive_neighbours == 2 || alive_neighbours == 3)),
            *self is Alive && alive_neighbours != 2 && alive_neighbours != 3 ==> cell
                == CellState::Dead,
    {
        match self {
            CellState::Dead => {
                if alive_neighbours == 3 {
                    CellState::Alive(0)
                } else {
                    CellState::Dead
                }
            },
            CellState::Alive(age) => {
                if alive_neighbours == 2 || alive_neighbours == 3 {
                    CellState::Alive(*age + 1)
                } else {
                    CellState::Dead
                }
            },
        }
    }
}

} // verus!

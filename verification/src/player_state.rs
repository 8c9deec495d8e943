//! Whether the simulation is running.

use vstd::prelude::*;

verus! {

#[derive(Clone, Copy, Debug, PartialEq, Eq, Structural)]
pub enum PlayerState {
    Play,
    Pause,
}

impl PlayerState {
    /// The other state.
    pub open spec fn switched(self) -> PlayerState {
        match self {
            PlayerState::Pause => PlayerState::Play,
            PlayerState::Play => PlayerState::Pause,
        }
    }

    pub fn switch(&mut self)
        ensures
            *final(self) == old(self).switched(),
    {
        *self = match self {
            PlayerState::Pause => PlayerState::Play,
            PlayerState::Play => PlayerState::Pause,
        };
    }
}

} // verus!

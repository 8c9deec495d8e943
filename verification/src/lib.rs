//! A Game of Life engine with per-cell ages on a double-buffered grid.
//!
//! The grid advances one generation at a time under a border policy that
//! either clamps the neighbourhood at the edges or wraps it around them.

pub mod app;
pub mod border_policy;
pub mod cell_state;
pub mod double_buffer_grid;
pub mod handler;
pub mod neighbours;
pub mod player_state;

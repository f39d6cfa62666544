//! Conway's Game of Life on a bounded grid, with an afterglow for cells
//! that died recently.

pub mod rule;
pub mod plane;
pub mod error;
pub mod symbol;
pub mod random;
pub mod board;
pub mod patterns;
pub mod laws;

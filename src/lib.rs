//! Conway's Game of Life on a fixed-size square board, without wraparound.
//!
//! The board is a `Simulation`; its abstract state is a square matrix of
//! `Cell`s (see `model`), advanced one generation at a time by `simulate`.

pub mod cell;
pub mod laws;
pub mod model;
pub mod render;
pub mod simulation;

pub use cell::Cell;
pub use simulation::{create_simulation, Simulation};

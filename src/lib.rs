//! Conway's Game of Life on a bounded, non-wrapping grid: the grid and its rule, the seed
//! patterns, the starting scenes of a run, and laws proved of them.
pub mod game;
pub mod patterns;
pub mod config;
pub mod laws;

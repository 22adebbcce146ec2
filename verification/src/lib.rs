//! A two-dimensional cellular automaton (Conway's Game of Life) on a
//! fixed-size toroidal grid.
//!
//! The engine owns a dense row-major cell buffer of fixed dimensions and
//! offers index mapping, wrap-around neighbor counting, a single-step
//! advance (`tick`), and state export. Every generation is computed in
//! full from a snapshot of the previous one.

pub mod cell;
pub mod grid;
pub mod laws;

pub use cell::Cell;
pub use cell::apply_rule;
pub use grid::GridError;
pub use grid::Universe;

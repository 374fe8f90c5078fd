//! Simulation core of a toroidal Conway's-Game-of-Life engine.
//!
//! The grid is a fixed-size matrix of boolean cells with wraparound
//! (toroidal) topology.  A controller gates generation advances behind a
//! fixed-interval step timer and handles interactive edits (paint a cell,
//! erase everything, pause and resume).  Rendering, windowing and input
//! translation are deliberately outside this crate: callers feed it discrete
//! grid coordinates, boolean intents and elapsed time, and read back the
//! current cell matrix to draw it.

pub mod rules;
pub mod grid;
pub mod controller;
pub mod laws;

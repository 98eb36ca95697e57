//! A two-player Pong simulation in fixed-point arithmetic.
//!
//! Lengths are whole micro-pixels, elapsed time is whole microseconds and
//! speeds are pixels per second, so that a speed times an elapsed time is a
//! length without rounding.

pub mod constants;
pub mod geometry;
pub mod racket;
pub mod ball;
pub mod model;
pub mod state;
pub mod laws;
pub mod scoreboard;

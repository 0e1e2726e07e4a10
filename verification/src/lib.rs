//! A ball that bounces between the walls of a fixed window, in exact
//! fixed-point arithmetic.

pub mod ball;
pub mod fixed;
pub mod laws;
pub mod shell;

//! A rock-paper-scissors round simulator: the three-gesture model with its
//! cyclic beats-relation, a uniform sampler over a gesture range, and a
//! fixed-count round loop whose tally renders as a summary line.

pub mod gesture;
pub mod sampler;
pub mod simulation;
pub mod text;

//! Decision core of a maze-solving robot ("micromouse").
//!
//! The crate has two tightly coupled pieces: the navigation engine, a
//! weighted-grid heuristic that turns sensed wall openings into a move
//! decision and updates a 16-by-16 cost map in place, and the move executor,
//! a kinematic state machine that animates a queue of discrete moves over
//! time and consults the navigation engine once its queue drains.

pub mod mouse;
pub mod navigate;
pub mod plan;

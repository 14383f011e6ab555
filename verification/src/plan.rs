//! The atomic move vocabulary and the sensed-opening record shared by the
//! navigation engine and the move executor.

use vstd::prelude::*;

verus! {

/// One atomic robot action: drive one cell ahead, or rotate in place.
#[derive(Copy, Clone, Debug, PartialEq, Eq, Structural)]
pub enum Move {
    Forward,
    TurnLeft,
    TurnRight,
    TurnAround,
}

/// Sensed openness of the three forward-facing edges relative to the current
/// heading. Backward is never represented here: it is always treated as an
/// available fallback direction.
#[derive(Copy, Clone, Debug, PartialEq, Eq, Structural)]
pub struct MoveOptions {
    pub forward: bool,
    pub left: bool,
    pub right: bool,
}

} // verus!

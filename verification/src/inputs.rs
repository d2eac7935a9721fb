//! Input-action values: the moves a player can request of the active piece.
//! Binding device inputs to these values is the surrounding program's job;
//! this core only defines the vocabulary.

use vstd::prelude::*;

verus! {

/// A move requested of the active piece.
#[derive(Clone, Copy, PartialEq, Eq, Structural, Debug)]
pub enum TetrinoMove {
    Left,
    Right,
    Clockwise,
    CounterClockWise,
}

/// An input event carrying one requested move.
#[derive(Clone, Copy, PartialEq, Eq, Structural, Debug)]
pub struct InputMove(pub TetrinoMove);

} // verus!

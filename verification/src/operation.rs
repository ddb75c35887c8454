//! Movement intents for paddles.
//!
//! The input layer produces one [`Operation`] per key press or AI decision;
//! the per-frame update consumes each operation exactly once.

use crate::paddle::Sides;
use vstd::prelude::*;

verus! {

/// The three operations on a paddle: up, down and stay.
#[derive(Clone, Copy, Debug, PartialEq, Eq, Structural)]
pub enum OperationTypes {
    /// The up operation.
    Up,
    /// The down operation.
    Down,
    /// The stay operation.
    Stay,
}

/// An operation acts on one paddle, addressed by the side it defends and its
/// index within that side's sequence.
#[derive(Clone, Copy, Debug, PartialEq, Eq, Structural)]
pub struct Operation {
    /// Whether the operation is up, down or stay.
    pub op_type: OperationTypes,
    /// Which side the addressed paddle is on.
    pub side: Sides,
    /// The index of the addressed paddle within its side.
    pub index: usize,
}

impl Operation {
    /// Constructor of an operation.
    pub fn new(op_type: OperationTypes, side: Sides, index: usize) -> (r: Operation)
        ensures
            r == (Operation { op_type, side, index }),
    {
        Operation { op_type, side, index }
    }
}

} // verus!

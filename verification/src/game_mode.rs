//! The game modes.

use vstd::prelude::*;

verus! {

/// There are 2 game modes in total, one default and one custom.
#[derive(Clone, Copy, Debug, PartialEq, Eq, Structural)]
pub enum GameMode {
    /// The default game: 2 paddles on each side and 2 balls, all with
    /// default sizes and positions, the balls launched from the center.
    Default,
    /// Custom games would allow any of those properties to change; no
    /// behavior has been designed for them yet.
    Custom,
}

} // verus!

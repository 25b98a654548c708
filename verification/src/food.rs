//! The single cell of food.

use vstd::prelude::*;
use crate::grid::Position;

verus! {

/// The food: the one cell that the snake grows on.
#[derive(Debug, Copy, Clone, PartialEq, Eq, Structural)]
pub struct Food {
    pub position: Position,
}

impl Food {
    /// The cell on which food appears when it is placed anew. It is the same
    /// cell every time: the placement is not random.
    pub open spec fn regenerated() -> Position {
        Position { x: 3, y: 3 }
    }

    /// Places the food anew, on the cell `regenerated()`, wherever it was.
    pub fn regenerate(&mut self)
        ensures
            final(self).position == Self::regenerated(),
    {
        self.position = Position { x: 3, y: 3 };
    }
}

} // verus!

//! The grid and the cells on it. The grid is a torus: a step over one edge
//! arrives at the opposite edge.

use vstd::prelude::*;
use crate::direction::Direction;

verus! {

/// The number of rows of the grid, and of its columns.
pub const SCREEN_SIZE: usize = 5;

/// A cell of the grid: `x` counts columns from the left, `y` rows from the
/// top.
#[derive(Debug, Copy, Clone, PartialEq, Eq, Structural)]
pub struct Position {
    pub x: usize,
    pub y: usize,
}

/// The coordinate after `c` along an axis, where the last is followed by the
/// first.
pub open spec fn forward(c: int) -> int {
    if c == SCREEN_SIZE - 1 {
        0
    } else {
        c + 1
    }
}

/// The coordinate before `c` along an axis, where the first is preceded by
/// the last.
pub open spec fn backward(c: int) -> int {
    if c == 0 {
        SCREEN_SIZE - 1
    } else {
        c - 1
    }
}

impl Position {
    /// Both coordinates lie on the grid.
    pub open spec fn in_grid(self) -> bool {
        self.x < SCREEN_SIZE && self.y < SCREEN_SIZE
    }

    /// The neighbour of this cell in the given heading: `DOWN` and `RIGHT`
    /// count forward along `y` and `x`, `UP` and `LEFT` backward, and the
    /// other coordinate stays.
    pub open spec fn spec_step(self, heading: Direction) -> Position {
        match heading {
            Direction::UP => Position { x: self.x, y: backward(self.y as int) as usize },
            Direction::RIGHT => Position { x: forward(self.x as int) as usize, y: self.y },
            Direction::DOWN => Position { x: self.x, y: forward(self.y as int) as usize },
            Direction::LEFT => Position { x: backward(self.x as int) as usize, y: self.y },
        }
    }

    /// Moves one cell in the given heading. A step over an edge of the grid
    /// arrives at the opposite edge.
    #[verifier::when_used_as_spec(spec_step)]
    pub fn step(self, heading: Direction) -> (next: Position)
        requires
            self.in_grid(),
        ensures
            next == self.spec_step(heading),
            next.in_grid(),
    {
        match heading {
            Direction::UP => Position {
                x: self.x,
                y: if self.y == 0 { SCREEN_SIZE - 1 } else { self.y - 1 },
            },
            Direction::RIGHT => Position { x: (self.x + 1) % SCREEN_SIZE, y: self.y },
            Direction::DOWN => Position { x: self.x, y: (self.y + 1) % SCREEN_SIZE },
            Direction::LEFT => Position {
                x: if self.x == 0 { SCREEN_SIZE - 1 } else { self.x - 1 },
                y: self.y,
            },
        }
    }
}

/// A step changes one coordinate and keeps the other. Down from the bottom
/// row arrives in the top row, up from the top row in the bottom row, right
/// from the last column in the first and left from the first column in the
/// last; from every other cell the coordinate moves by one and does not wrap.
pub proof fn lemma_step_wraps_only_at_the_edges(p: Position)
    requires
        p.in_grid(),
    ensures
        p.step(Direction::DOWN).x == p.x,
        p.step(Direction::DOWN).y == if p.y == 4 { 0 } else { p.y + 1 },
        p.step(Direction::UP).x == p.x,
        p.step(Direction::UP).y == if p.y == 0 { 4 } else { p.y - 1 },
        p.step(Direction::RIGHT).y == p.y,
        p.step(Direction::RIGHT).x == if p.x == 4 { 0 } else { p.x + 1 },
        p.step(Direction::LEFT).y == p.y,
        p.step(Direction::LEFT).x == if p.x == 0 { 4 } else { p.x - 1 },
{
}

/// On the grid, one coordinate forward is one more modulo the grid size, and
/// one backward is one less modulo the grid size.
pub proof fn lemma_steps_are_modular(c: int)
    requires
        0 <= c < SCREEN_SIZE,
    ensures
        forward(c) == (c + 1) % (SCREEN_SIZE as int),
        backward(c) == (c - 1) % (SCREEN_SIZE as int),
        0 <= forward(c) < SCREEN_SIZE,
        0 <= backward(c) < SCREEN_SIZE,
{
}

/// A step and the step in the opposite heading lead back to the cell they
/// started from, also across an edge.
pub proof fn lemma_step_back(p: Position, heading: Direction)
    requires
        p.in_grid(),
    ensures
        p.step(heading).step(heading.right().right()) == p,
{
}

} // verus!

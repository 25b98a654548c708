//! The four headings and the two relative turns.

use vstd::prelude::*;

verus! {

/// A heading. The variants are listed clockwise, and the list closes on
/// itself: after `LEFT` comes `UP` again.
#[allow(non_camel_case_types)]
#[derive(Debug, Clone, Copy, PartialEq, Eq, Structural)]
pub enum Direction {
    UP,
    RIGHT,
    DOWN,
    LEFT,
}

impl Direction {
    /// The heading one quarter turn clockwise from this one.
    pub open spec fn spec_right(&self) -> Direction {
        match *self {
            Direction::UP => Direction::RIGHT,
            Direction::RIGHT => Direction::DOWN,
            Direction::DOWN => Direction::LEFT,
            Direction::LEFT => Direction::UP,
        }
    }

    /// The heading one quarter turn counter-clockwise from this one.
    pub open spec fn spec_left(&self) -> Direction {
        match *self {
            Direction::UP => Direction::LEFT,
            Direction::RIGHT => Direction::UP,
            Direction::DOWN => Direction::RIGHT,
            Direction::LEFT => Direction::DOWN,
        }
    }

    /// Turns a quarter clockwise.
    #[verifier::when_used_as_spec(spec_right)]
    pub fn right(&self) -> (turned: Direction)
        ensures
            turned == self.spec_right(),
    {
        match self {
            Direction::UP => Direction::RIGHT,
            Direction::RIGHT => Direction::DOWN,
            Direction::DOWN => Direction::LEFT,
            Direction::LEFT => Direction::UP,
        }
    }

    /// Turns a quarter counter-clockwise.
    #[verifier::when_used_as_spec(spec_left)]
    pub fn left(&self) -> (turned: Direction)
        ensures
            turned == self.spec_left(),
    {
        match self {
            Direction::UP => Direction::LEFT,
            Direction::RIGHT => Direction::UP,
            Direction::DOWN => Direction::RIGHT,
            Direction::LEFT => Direction::DOWN,
        }
    }
}

/// A right turn undoes a left turn, and a left turn undoes a right turn.
pub proof fn lemma_opposite_turns_cancel(d: Direction)
    ensures
        d.right().left() == d,
        d.left().right() == d,
{
}

/// Four quarter turns the same way round lead back to the heading they
/// started from.
pub proof fn lemma_four_turns_close_the_circle(d: Direction)
    ensures
        d.right().right().right().right() == d,
        d.left().left().left().left() == d,
{
}

} // verus!

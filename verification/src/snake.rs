//! The snake: its cells from head to tail, its heading, and the one move it
//! makes per tick.

use vstd::prelude::*;
use crate::body::{body_cells, cells_of, clone_body, empty_body, push_cell, CAPACITY};
use crate::direction::Direction;
use crate::food::Food;
use crate::grid::Position;

verus! {

/// The snake as a mathematical value: the cells it lies on, head first, and
/// the heading of its head.
#[verifier::ext_equal]
pub struct SnakeView {
    pub body: Seq<Position>,
    pub direction: Direction,
}

impl SnakeView {
    /// The snake has a head, fits its buffer, and lies on the grid.
    pub open spec fn wf(self) -> bool {
        &&& 1 <= self.len() <= CAPACITY
        &&& forall|i: int| 0 <= i < self.body.len() ==> (#[trigger] self.body[i]).in_grid()
    }

    /// The number of cells of the snake.
    pub open spec fn len(self) -> nat {
        self.body.len()
    }

    /// The heading after the turns of one tick: the left turn is taken
    /// first, the right turn second, each only if it is asked for.
    pub open spec fn turn(self, turn_left: bool, turn_right: bool) -> Direction {
        let after_left = if turn_left {
            self.direction.left()
        } else {
            self.direction
        };
        if turn_right {
            after_left.right()
        } else {
            after_left
        }
    }

    /// The cell that the head moves to: one step from the head in the
    /// heading that the turns leave.
    pub open spec fn next_head(self, turn_left: bool, turn_right: bool) -> Position {
        self.body[0].step(self.turn(turn_left, turn_right))
    }

    /// The head arrives on the food.
    pub open spec fn eats(self, turn_left: bool, turn_right: bool, food: Position) -> bool {
        self.next_head(turn_left, turn_right) == food
    }

    /// The snake gets one cell longer: it eats, and its buffer has room for
    /// one more cell.
    pub open spec fn grows(self, turn_left: bool, turn_right: bool, food: Position) -> bool {
        self.eats(turn_left, turn_right, food) && self.len() < CAPACITY
    }

    /// The snake after one tick. The new head comes first and the old cells
    /// follow in their order; the last of them is dropped unless the snake
    /// grows.
    pub open spec fn update(self, turn_left: bool, turn_right: bool, food: Position) -> SnakeView {
        let head = self.next_head(turn_left, turn_right);
        let tail = if self.grows(turn_left, turn_right, food) {
            self.body
        } else {
            self.body.drop_last()
        };
        SnakeView { body: seq![head] + tail, direction: self.turn(turn_left, turn_right) }
    }

    /// The cell of the food after one tick: food that is eaten stays where
    /// it is, food that is missed is placed anew.
    pub open spec fn food_after(self, turn_left: bool, turn_right: bool, food: Position) -> Position {
        if self.eats(turn_left, turn_right, food) {
            food
        } else {
            Food::regenerated()
        }
    }
}

/// With both turns asked for in one tick the left turn is taken first and the
/// right turn second, which leaves the heading as it was. A single turn is
/// that turn, and no turn keeps the heading.
pub proof fn lemma_turns_of_one_tick(snake: SnakeView)
    ensures
        snake.turn(true, true) == snake.direction.left().right(),
        snake.turn(true, true) == snake.direction,
        snake.turn(true, false) == snake.direction.left(),
        snake.turn(false, true) == snake.direction.right(),
        snake.turn(false, false) == snake.direction,
{
}

/// A tick keeps the snake well formed, whatever is asked of it and wherever
/// the food is, and leaves the food on the grid. The new head is the first
/// cell, and each old cell that is kept lies one place further back.
pub proof fn lemma_update_keeps_the_snake_well_formed(
    snake: SnakeView,
    turn_left: bool,
    turn_right: bool,
    food: Position,
)
    requires
        snake.wf(),
    ensures
        snake.update(turn_left, turn_right, food).wf(),
        snake.food_after(turn_left, turn_right, food).in_grid(),
        snake.update(turn_left, turn_right, food).body[0] == snake.next_head(turn_left, turn_right),
        forall|i: int|
            0 <= i < snake.update(turn_left, turn_right, food).len() - 1 ==> snake.update(
                turn_left,
                turn_right,
                food,
            ).body[i + 1] == #[trigger] snake.body[i],
{
}

/// The snake. Its cells live in a buffer of fixed capacity, head first.
#[derive(Debug)]
pub struct Snake {
    body: heapless::Vec<Position, CAPACITY>,
    direction: Direction,
}

impl View for Snake {
    type V = SnakeView;

    closed spec fn view(&self) -> SnakeView {
        SnakeView { body: body_cells(self.body), direction: self.direction }
    }
}

impl Clone for Snake {
    /// A second snake on the same cells with the same heading.
    fn clone(&self) -> (copy: Snake)
        ensures
            copy@ == self@,
    {
        Snake { body: clone_body(&self.body), direction: self.direction }
    }
}

impl Snake {
    /// What every snake made by `new` and moved by `update` satisfies.
    pub open spec fn wf(&self) -> bool {
        self@.wf()
    }

    /// A snake of one cell, `start`, with the given heading.
    pub fn new(start: Position, direction: Direction) -> (snake: Snake)
        requires
            start.in_grid(),
        ensures
            snake.wf(),
            snake@.body == seq![start],
            snake@.direction == direction,
    {
        let mut body = empty_body();
        // An empty buffer has room for the cell: the push cannot fail.
        let _ = push_cell(&mut body, start);
        Snake { body, direction }
    }

    /// Moves the snake by one tick.
    ///
    /// The heading turns left if `turn_left` is set and then right if
    /// `turn_right` is set. The head advances one cell in the new heading,
    /// around the edge of the grid if need be, and the cells behind it follow.
    /// Where the head arrives on the food the snake grows by one cell and the
    /// food stays; where it misses, the snake keeps its length and the food
    /// is placed anew. A snake that fills its buffer cannot grow: it moves on
    /// at full length.
    pub fn update(&mut self, turn_left: bool, turn_right: bool, food: &mut Food)
        requires
            old(self).wf(),
        ensures
            final(self).wf(),
            final(self)@ == old(self)@.update(turn_left, turn_right, old(food).position),
            final(food).position == old(self)@.food_after(
                turn_left,
                turn_right,
                old(food).position,
            ),
            final(self)@.len() == old(self)@.len() || final(self)@.len() == old(self)@.len() + 1,
            1 <= final(self)@.len() <= CAPACITY,
            old(self)@.grows(turn_left, turn_right, old(food).position) ==> final(self)@.len()
                == old(self)@.len() + 1,
            old(self)@.eats(turn_left, turn_right, old(food).position) ==> final(food).position
                == old(food).position,
            !old(self)@.eats(turn_left, turn_right, old(food).position) ==> final(self)@.len()
                == old(self)@.len(),
            !old(self)@.eats(turn_left, turn_right, old(food).position) ==> final(food).position
                == Food::regenerated(),
            final(food).position.in_grid(),
    {
        if turn_left {
            self.direction = self.direction.left();
        }
        if turn_right {
            self.direction = self.direction.right();
        }
        let cells = cells_of(&self.body);
        let length = cells.len();
        let new_head = cells[0].step(self.direction);
        let eaten = new_head == food.position;
        // The last cell is left behind unless the snake grows.
        let kept: usize = if eaten && length < CAPACITY {
            length
        } else {
            length - 1
        };

        // The new body takes the new head and `kept` of the old cells, which
        // is never more than the buffer has room for: no push can fail.
        let mut new_body = empty_body();
        let _ = push_cell(&mut new_body, new_head);
        let mut i: usize = 0;
        while i < kept
            invariant
                i <= kept <= length,
                kept < CAPACITY,
                length == cells@.len(),
                body_cells(new_body) == seq![new_head] + cells@.take(i as int),
            decreases kept - i,
        {
            let _ = push_cell(&mut new_body, cells[i]);
            proof {
                assert(cells@.take(i as int).push(cells@[i as int]) == cells@.take(i + 1));
            }
            i += 1;
        }
        proof {
            assert(cells@.take(length as int) == cells@);
            assert(cells@.take(length - 1) == cells@.drop_last());
        }
        self.body = new_body;
        if !eaten {
            food.regenerate();
        }
    }

    /// The heading of the head.
    pub fn direction(&self) -> (heading: Direction)
        ensures
            heading == self@.direction,
    {
        self.direction
    }

    /// The cells of the snake, head first.
    pub fn body(&self) -> (cells: &[Position])
        ensures
            cells@ == self@.body,
    {
        cells_of(&self.body)
    }
}

} // verus!

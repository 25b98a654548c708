//! The picture of the game: a matrix of lamps, one for each cell of the grid.

use vstd::prelude::*;
use vstd::seq_lib::{lemma_seq_contains_after_push, seq_to_set_is_finite};
use crate::food::Food;
use crate::grid::Position;
use crate::snake::{Snake, SnakeView};

verus! {

/// The picture with every lamp dark.
pub const CLEAN_DISPLAY: [[u8; 5]; 5] = [
    [0, 0, 0, 0, 0],
    [0, 0, 0, 0, 0],
    [0, 0, 0, 0, 0],
    [0, 0, 0, 0, 0],
    [0, 0, 0, 0, 0],
];

/// How long the display holds one picture, in milliseconds. A display that
/// blocks for that long sets the pace of the game: one tick per picture.
pub const FRAME_DURATION_MS: u32 = 200;

/// The lamp of a cell: rows are counted by `y`, and the lamps of a row by
/// `x`.
pub open spec fn lamp(frame: [[u8; 5]; 5], cell: Position) -> u8
    recommends
        cell.in_grid(),
{
    frame[cell.y as int][cell.x as int]
}

/// What a lamp holds: 1 where it is lit, 0 where it is dark.
pub open spec fn brightness(lit: bool) -> u8 {
    if lit {
        1
    } else {
        0
    }
}

/// The picture shows the snake and the food, and nothing else: the lamp of a
/// cell is lit where the snake lies or the food is, and dark on every other
/// cell.
pub open spec fn shows(frame: [[u8; 5]; 5], body: Seq<Position>, food: Position) -> bool {
    forall|cell: Position|
        cell.in_grid() ==> #[trigger] lamp(frame, cell) == brightness(
            body.contains(cell) || cell == food,
        )
}

/// The cells whose lamps are lit.
pub open spec fn lit_cells(frame: [[u8; 5]; 5]) -> Set<Position> {
    Set::new(|cell: Position| cell.in_grid() && lamp(frame, cell) == 1)
}

/// In a picture that shows a snake and the food, the lit cells are the cells
/// of the snake together with the cell of the food: every lit lamp belongs to
/// one of them, and each of them has its lamp lit. There are at most as many
/// lit lamps as the snake has cells, and one more.
pub proof fn lemma_lit_cells_are_snake_and_food(
    frame: [[u8; 5]; 5],
    snake: SnakeView,
    food: Position,
)
    requires
        snake.wf(),
        food.in_grid(),
        shows(frame, snake.body, food),
    ensures
        lit_cells(frame) == snake.body.to_set().insert(food),
        lit_cells(frame).finite(),
        lit_cells(frame).len() <= snake.len() + 1,
{
    let expected = snake.body.to_set().insert(food);
    assert forall|cell: Position| lit_cells(frame).contains(cell) == expected.contains(cell) by {
        if snake.body.contains(cell) {
            let i = snake.body.lemma_contains_to_index(cell);
            assert(snake.body[i].in_grid());
        }
        if cell.in_grid() {
            assert(lamp(frame, cell) == 1 <==> snake.body.contains(cell) || cell == food);
        }
    }
    assert(lit_cells(frame) =~= expected);
    seq_to_set_is_finite(snake.body);
    snake.body.lemma_cardinality_of_set();
}

/// Where no two cells of the snake are the same cell, the picture has exactly
/// one lit lamp for each cell of the snake, and one more for the food unless
/// the snake lies on it.
pub proof fn lemma_lit_count_without_overlap(
    frame: [[u8; 5]; 5],
    snake: SnakeView,
    food: Position,
)
    requires
        snake.wf(),
        food.in_grid(),
        shows(frame, snake.body, food),
        snake.body.no_duplicates(),
    ensures
        snake.body.contains(food) ==> lit_cells(frame).len() == snake.len(),
        !snake.body.contains(food) ==> lit_cells(frame).len() == snake.len() + 1,
{
    lemma_lit_cells_are_snake_and_food(frame, snake, food);
    seq_to_set_is_finite(snake.body);
    snake.body.unique_seq_to_set();
}

/// Draws the snake and the food.
///
/// Every lamp of the picture is 0 or 1. The lamps that are lit are those of
/// the cells of the snake and that of the food, so a snake that does not lie
/// on itself lights one lamp per cell, and the food one more unless it is
/// under the snake.
pub fn render(snake: &Snake, food: &Food) -> (frame: [[u8; 5]; 5])
    requires
        snake.wf(),
        food.position.in_grid(),
    ensures
        shows(frame, snake@.body, food.position),
        lit_cells(frame) == snake@.body.to_set().insert(food.position),
        lit_cells(frame).len() <= snake@.len() + 1,
        snake@.body.no_duplicates() && snake@.body.contains(food.position) ==> lit_cells(
            frame,
        ).len() == snake@.len(),
        snake@.body.no_duplicates() && !snake@.body.contains(food.position) ==> lit_cells(
            frame,
        ).len() == snake@.len() + 1,
{
    let mut frame = CLEAN_DISPLAY;
    let cells = snake.body();
    let mut i: usize = 0;
    while i < cells.len()
        invariant
            i <= cells@.len(),
            cells@ == snake@.body,
            snake.wf(),
            forall|cell: Position|
                cell.in_grid() ==> #[trigger] lamp(frame, cell) == brightness(
                    cells@.take(i as int).contains(cell),
                ),
        decreases cells@.len() - i,
    {
        let cell = cells[i];
        let ghost before = frame;
        frame[cell.y][cell.x] = 1;
        proof {
            assert(cells@.take(i + 1) == cells@.take(i as int).push(cell));
            assert forall|other: Position| other.in_grid() implies #[trigger] lamp(frame, other)
                == brightness(cells@.take(i + 1).contains(other)) by {
                lemma_seq_contains_after_push(cells@.take(i as int), cell, other);
                assert(lamp(frame, other) == if other == cell {
                    1u8
                } else {
                    lamp(before, other)
                });
            }
        }
        i += 1;
    }
    let ghost before = frame;
    frame[food.position.y][food.position.x] = 1;
    proof {
        assert(cells@.take(i as int) == cells@);
        assert forall|other: Position| other.in_grid() implies #[trigger] lamp(frame, other)
            == brightness(cells@.contains(other) || other == food.position) by {
            assert(lamp(frame, other) == if other == food.position {
                1u8
            } else {
                lamp(before, other)
            });
        }
        lemma_lit_cells_are_snake_and_food(frame, snake@, food.position);
        if snake@.body.no_duplicates() {
            lemma_lit_count_without_overlap(frame, snake@, food.position);
        }
    }
    frame
}

} // verus!

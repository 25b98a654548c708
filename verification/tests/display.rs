use snake_game::{render, Direction, Food, Position, Snake, CLEAN_DISPLAY, FRAME_DURATION_MS};

fn at(x: usize, y: usize) -> Position {
    Position { x, y }
}

fn lit(frame: &[[u8; 5]; 5]) -> usize {
    let mut n = 0;
    for row in frame.iter() {
        for lamp in row.iter() {
            assert!(*lamp == 0 || *lamp == 1);
            if *lamp == 1 {
                n += 1;
            }
        }
    }
    n
}

#[test]
fn the_clean_display_is_dark() {
    assert_eq!(CLEAN_DISPLAY, [[0u8; 5]; 5]);
}

#[test]
fn a_picture_is_held_for_two_hundred_milliseconds() {
    assert_eq!(FRAME_DURATION_MS, 200);
}

#[test]
fn a_picture_is_indexed_by_row_then_column() {
    let snake = Snake::new(at(1, 0), Direction::RIGHT);
    let food = Food { position: at(2, 4) };
    let frame = render(&snake, &food);
    assert_eq!(
        frame,
        [
            [0, 1, 0, 0, 0],
            [0, 0, 0, 0, 0],
            [0, 0, 0, 0, 0],
            [0, 0, 0, 0, 0],
            [0, 0, 1, 0, 0],
        ]
    );
}

#[test]
fn a_picture_shows_every_cell_of_the_snake_and_the_food() {
    let mut snake = Snake::new(at(2, 3), Direction::RIGHT);
    let mut food = Food { position: at(3, 3) };
    snake.update(false, false, &mut food);
    snake.update(false, true, &mut food);
    food.position = at(0, 1);
    let frame = render(&snake, &food);
    assert_eq!(snake.body(), &[at(3, 4), at(3, 3)]);
    assert_eq!(
        frame,
        [
            [0, 0, 0, 0, 0],
            [1, 0, 0, 0, 0],
            [0, 0, 0, 0, 0],
            [0, 0, 0, 1, 0],
            [0, 0, 0, 1, 0],
        ]
    );
    assert_eq!(lit(&frame), 3);
}

#[test]
fn food_under_the_snake_lights_no_lamp_of_its_own() {
    let mut snake = Snake::new(at(2, 3), Direction::RIGHT);
    let mut food = Food { position: at(3, 3) };
    snake.update(false, false, &mut food);
    let frame = render(&snake, &food);
    assert_eq!(snake.body(), &[at(3, 3), at(2, 3)]);
    assert_eq!(
        frame,
        [
            [0, 0, 0, 0, 0],
            [0, 0, 0, 0, 0],
            [0, 0, 0, 0, 0],
            [0, 0, 1, 1, 0],
            [0, 0, 0, 0, 0],
        ]
    );
    assert_eq!(lit(&frame), 2);
}

#[test]
fn a_snake_that_lies_on_itself_lights_each_cell_once() {
    let mut snake = Snake::new(at(2, 3), Direction::RIGHT);
    let mut food = Food { position: at(3, 3) };
    while snake.body().len() < 7 {
        snake.update(false, false, &mut food);
    }
    let frame = render(&snake, &food);
    assert_eq!(
        frame,
        [
            [0, 0, 0, 0, 0],
            [0, 0, 0, 0, 0],
            [0, 0, 0, 0, 0],
            [1, 1, 1, 1, 1],
            [0, 0, 0, 0, 0],
        ]
    );
    assert_eq!(lit(&frame), 5);
}

#[test]
fn the_lit_lamps_are_counted_by_the_snake_and_the_food() {
    let mut snake = Snake::new(at(0, 0), Direction::DOWN);
    let mut food = Food { position: at(0, 1) };
    snake.update(false, false, &mut food);
    food.position = at(0, 2);
    snake.update(false, false, &mut food);
    food.position = at(0, 3);
    snake.update(false, false, &mut food);
    assert_eq!(snake.body(), &[at(0, 3), at(0, 2), at(0, 1), at(0, 0)]);

    food.position = at(4, 4);
    assert_eq!(lit(&render(&snake, &food)), 5);
    food.position = at(0, 1);
    assert_eq!(lit(&render(&snake, &food)), 4);
}

#[test]
fn every_corner_can_be_lit() {
    for (x, y) in [(0, 0), (4, 0), (0, 4), (4, 4)] {
        let snake = Snake::new(at(2, 2), Direction::UP);
        let food = Food { position: at(x, y) };
        let frame = render(&snake, &food);
        assert_eq!(frame[y][x], 1);
        assert_eq!(frame[2][2], 1);
        assert_eq!(lit(&frame), 2);
    }
}

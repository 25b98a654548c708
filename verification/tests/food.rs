use snake_game::{Food, Position};

#[test]
fn regenerate_places_the_food_on_three_three() {
    let mut food = Food { position: Position { x: 2, y: 2 } };
    food.regenerate();
    assert_eq!(food.position, Position { x: 3, y: 3 });
}

#[test]
fn regenerate_twice_is_regenerate_once() {
    let mut food = Food { position: Position { x: 0, y: 4 } };
    food.regenerate();
    let once = food;
    food.regenerate();
    assert_eq!(food, once);
    assert_eq!(food.position, Position { x: 3, y: 3 });
}

#[test]
fn regenerate_does_not_depend_on_the_old_cell() {
    for x in 0..5 {
        for y in 0..5 {
            let mut food = Food { position: Position { x, y } };
            food.regenerate();
            assert_eq!(food.position, Position { x: 3, y: 3 });
        }
    }
}

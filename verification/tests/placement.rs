use snake_game::food::{generate_food, Food};
use snake_game::geometry::{Coordinate, Direction};
use snake_game::snake::{Snake, SnakePart};

fn part(x: i32, y: i32, is_head: bool) -> SnakePart {
    SnakePart { coord: Coordinate { x, y }, direction: Direction::Left, is_head }
}

/// A snake whose segments walk the `width` by `height` grid row by row,
/// boustrophedon fashion, covering the first `n` cells.
fn serpentine(width: i32, height: i32, n: i32) -> Snake {
    let mut parts = Vec::new();
    let mut count = 0;
    for y in 0..height {
        for step in 0..width {
            if count == n {
                break;
            }
            let x = if y % 2 == 0 { step } else { width - 1 - step };
            parts.push(part(x, y, count == 0));
            count += 1;
        }
    }
    Snake { parts, size: n as usize, direction: Direction::Left }
}

#[test]
fn is_on_snake_finds_each_segment_and_nothing_else() {
    let snake = serpentine(3, 3, 4);
    assert!(Food { coord: Coordinate { x: 0, y: 0 } }.is_on_snake(&snake));
    assert!(Food { coord: Coordinate { x: 2, y: 0 } }.is_on_snake(&snake));
    assert!(Food { coord: Coordinate { x: 2, y: 1 } }.is_on_snake(&snake));
    assert!(!Food { coord: Coordinate { x: 1, y: 1 } }.is_on_snake(&snake));
    assert!(!Food { coord: Coordinate { x: 0, y: 2 } }.is_on_snake(&snake));
}

#[test]
fn sparse_placement_returns_a_free_cell_on_the_grid() {
    let snake = serpentine(10, 10, 2);
    for _ in 0..50 {
        let food = generate_food(&snake, 10, 10).expect("a nearly empty grid has food");
        assert!((0..10).contains(&food.coord.x));
        assert!((0..10).contains(&food.coord.y));
        assert!(!food.is_on_snake(&snake));
    }
}

#[test]
fn dense_placement_returns_a_free_cell_on_the_grid() {
    // 15 of 25 cells taken: well past the three-tenths threshold, so the
    // free cells are enumerated.
    let snake = serpentine(5, 5, 15);
    for _ in 0..50 {
        let food = generate_food(&snake, 5, 5).expect("ten cells are still free");
        assert!((0..5).contains(&food.coord.x));
        assert!((0..5).contains(&food.coord.y));
        assert!(!food.is_on_snake(&snake));
    }
}

#[test]
fn placement_at_the_regime_boundary_returns_a_free_cell() {
    // A 5 by 2 grid has a threshold of three: size 2 samples, size 3
    // enumerates. Both sides of the boundary must place correctly.
    let below = serpentine(5, 2, 2);
    let food = generate_food(&below, 5, 2).expect("eight cells are free");
    assert!(!food.is_on_snake(&below));
    assert!((0..5).contains(&food.coord.x) && (0..2).contains(&food.coord.y));

    let at = serpentine(5, 2, 3);
    let food = generate_food(&at, 5, 2).expect("seven cells are free");
    assert!(!food.is_on_snake(&at));
    assert!((0..5).contains(&food.coord.x) && (0..2).contains(&food.coord.y));
}

#[test]
fn placement_with_one_free_cell_finds_exactly_it() {
    let snake = serpentine(3, 3, 8);
    let food = generate_food(&snake, 3, 3).expect("one cell is still free");
    // The serpentine leaves only the end of the last row free.
    assert_eq!(food.coord, Coordinate { x: 2, y: 2 });
}

#[test]
fn placement_on_a_filled_grid_reports_victory() {
    // A 3 by 3 board completely filled by a snake of size 9: no cell is
    // free, and placement signals it with `None`.
    let snake = serpentine(3, 3, 9);
    assert_eq!(snake.size, 9);
    assert!(generate_food(&snake, 3, 3).is_none());
}

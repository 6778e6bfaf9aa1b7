use snake_game::food::Food;
use snake_game::geometry::{Coordinate, Direction};
use snake_game::render::{
    draw_centre_line, draw_screen, draw_top_bottom_line, snake_parts_in_line, Entity,
};
use snake_game::snake::{generate_initial_snake, Snake, SnakePart};

fn part(x: i32, y: i32, direction: Direction, is_head: bool) -> SnakePart {
    SnakePart { coord: Coordinate { x, y }, direction, is_head }
}

#[test]
fn initial_board_renders_borders_interior_and_head_glyph() {
    // The initial two-segment snake on a 5 by 5 board: a top border row
    // of 7 glyphs, 5 interior rows, a bottom border row, and the head
    // drawn with the leftward glyph.
    let snake = generate_initial_snake(5, 5);
    let food = Food { coord: Coordinate { x: 1, y: 2 } };
    let rows = draw_screen(&snake, &food, 5, 5);

    assert_eq!(rows.len(), 7);
    for row in &rows {
        assert_eq!(row.chars().count(), 7);
    }
    assert_eq!(rows[0], "+-----+");
    assert_eq!(rows[1], "|     |");
    assert_eq!(rows[2], "|     |");
    assert_eq!(rows[3], "| X <O|");
    assert_eq!(rows[4], "|     |");
    assert_eq!(rows[5], "|     |");
    assert_eq!(rows[6], "+-----+");
}

#[test]
fn entities_of_a_line_cover_the_border_columns() {
    let snake = generate_initial_snake(5, 5);
    let entities = snake_parts_in_line(&snake, 5, 2);
    assert_eq!(entities.len(), 7);
    assert!(matches!(entities[0], Entity::Space));
    assert!(matches!(entities[4], Entity::SnakePart('<')));
    assert!(matches!(entities[5], Entity::SnakePart('O')));
    assert!(matches!(entities[6], Entity::Space));

    let empty_line = snake_parts_in_line(&snake, 5, 0);
    for e in &empty_line {
        assert!(matches!(*e, Entity::Space));
    }
}

#[test]
fn food_is_not_drawn_under_a_segment() {
    let snake = generate_initial_snake(5, 5);
    let covered = Food { coord: Coordinate { x: 3, y: 2 } };
    assert_eq!(draw_centre_line(&snake, &covered, 5, 2), "|   <O|");

    let beside = Food { coord: Coordinate { x: 0, y: 2 } };
    assert_eq!(draw_centre_line(&snake, &beside, 5, 2), "|X  <O|");
}

#[test]
fn head_glyph_wins_over_a_body_segment_on_the_same_cell() {
    let snake = Snake {
        parts: vec![
            part(1, 1, Direction::Up, true),
            part(1, 1, Direction::Left, false),
            part(2, 1, Direction::Left, false),
        ],
        size: 3,
        direction: Direction::Up,
    };
    let food = Food { coord: Coordinate { x: 4, y: 4 } };
    assert_eq!(draw_centre_line(&snake, &food, 5, 1), "| ^O  |");
}

#[test]
fn segments_on_the_border_row_are_drawn_over_the_filler() {
    let snake = Snake {
        parts: vec![part(2, -1, Direction::Up, true), part(2, 0, Direction::Up, false)],
        size: 2,
        direction: Direction::Up,
    };
    assert_eq!(draw_top_bottom_line(&snake, 5, 5, true), "+--^--+");
    assert_eq!(draw_top_bottom_line(&snake, 5, 5, false), "+-----+");
}

#[test]
fn segments_on_the_border_column_are_drawn_over_the_post() {
    let snake = Snake {
        parts: vec![part(-1, 2, Direction::Left, true), part(0, 2, Direction::Left, false)],
        size: 2,
        direction: Direction::Left,
    };
    let food = Food { coord: Coordinate { x: 4, y: 0 } };
    assert_eq!(draw_centre_line(&snake, &food, 5, 2), "<O    |");
}

#[test]
fn each_heading_gets_its_own_head_glyph_on_the_board() {
    let food = Food { coord: Coordinate { x: 4, y: 4 } };
    let headings = [
        (Direction::Up, "| ^   |"),
        (Direction::Down, "| v   |"),
        (Direction::Left, "| <   |"),
        (Direction::Right, "| >   |"),
    ];
    for (direction, expected) in headings {
        let snake = Snake {
            parts: vec![part(1, 1, direction, true), part(1, 2, direction, false)],
            size: 2,
            direction,
        };
        assert_eq!(draw_centre_line(&snake, &food, 5, 1), expected);
    }
}

#[test]
fn screen_of_a_grown_snake_shows_the_whole_body() {
    let snake = Snake {
        parts: vec![
            part(1, 2, Direction::Left, true),
            part(2, 2, Direction::Left, false),
            part(3, 2, Direction::Left, false),
        ],
        size: 3,
        direction: Direction::Left,
    };
    let food = Food { coord: Coordinate { x: 0, y: 0 } };
    let rows = draw_screen(&snake, &food, 5, 5);
    assert_eq!(rows[1], "|X    |");
    assert_eq!(rows[3], "| <OO |");
}

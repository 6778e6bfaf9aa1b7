//! The board renderer: a pure projection of snake and food onto rows of
//! text, one row per grid line plus a top and a bottom border row.
//!
//! Per cell the draw priority is head over body over food over empty;
//! food is never drawn under a segment. Segments may lie on the one-cell
//! border region around the playable area and are then drawn in place of
//! the border filler; the four corner posts are always drawn.

use vstd::prelude::*;

use crate::food::Food;
use crate::geometry::Coordinate;
use crate::snake::{spec_symbol, Snake};

verus! {

/// What occupies one column of one row: a snake segment carrying its
/// glyph, the food, or nothing.
#[derive(Clone, Copy, Debug)]
pub enum Entity {
    SnakePart(char),
    Food,
    Space,
}

/// Relies on `String: FromIterator<char>`: collecting characters yields
/// the string of exactly those characters in order.
#[verifier::external_body]
fn chars_to_string(v: &Vec<char>) -> (r: String)
    ensures
        r@ == v@,
{
    v.iter().collect()
}

/// What the snake alone puts into the cell `(x, y)`: the head's glyph
/// where the head lies, the body glyph where any other segment lies, and
/// nothing otherwise. The head takes priority over a body segment on the
/// same cell, which occurs only transiently before the loss check fires.
pub open spec fn line_entity(s: Snake, x: int, y: int) -> Entity {
    if s.parts@[0].coord.x == x && s.parts@[0].coord.y == y {
        Entity::SnakePart(spec_symbol(s.parts@[0]))
    } else if exists|i: int|
        1 <= i < s.parts@.len() && (#[trigger] s.parts@[i]).coord.x == x
            && s.parts@[i].coord.y == y {
        Entity::SnakePart('O')
    } else {
        Entity::Space
    }
}

/// The snake's entity at the cell, computed column by column.
fn entity_at(snake: &Snake, x: i32, y: i32) -> (e: Entity)
    requires
        snake.wf(),
    ensures
        e == line_entity(*snake, x as int, y as int),
{
    let head = snake.parts[0];
    if head.coord.x == x && head.coord.y == y {
        return Entity::SnakePart(head.symbol());
    }
    let mut i: usize = 1;
    while i < snake.parts.len()
        invariant
            snake.wf(),
            1 <= i <= snake.parts@.len(),
            !(snake.parts@[0].coord.x == x && snake.parts@[0].coord.y == y),
            forall|k: int|
                1 <= k < i ==> !((#[trigger] snake.parts@[k]).coord.x == x
                    && snake.parts@[k].coord.y == y),
        decreases snake.parts@.len() - i,
    {
        let part = snake.parts[i];
        if part.coord.x == x && part.coord.y == y {
            return Entity::SnakePart(part.symbol());
        }
        i += 1;
    }
    Entity::Space
}

/// The entities of one drawable row, covering the playable columns and
/// the border column on either side: index `j` of the result is column
/// `j - 1` of row `line`.
pub fn snake_parts_in_line(snake: &Snake, width: i32, line: i32) -> (r: Vec<Entity>)
    requires
        snake.wf(),
        0 <= width < i32::MAX,
    ensures
        r@.len() == width + 2,
        forall|j: int|
            0 <= j < r@.len() ==> r@[j] == line_entity(*snake, j - 1, line as int),
{
    let mut entities: Vec<Entity> = Vec::new();
    let mut x: i32 = -1;
    while x <= width
        invariant
            snake.wf(),
            0 <= width < i32::MAX,
            -1 <= x <= width + 1,
            entities@.len() == x + 1,
            forall|j: int|
                0 <= j < entities@.len() ==> entities@[j] == line_entity(
                    *snake,
                    j - 1,
                    line as int,
                ),
        decreases width + 1 - x,
    {
        entities.push(entity_at(snake, x, line));
        x += 1;
    }
    entities
}

/// One row's entity once the food is laid over it: the food appears in
/// its own cell only where the snake leaves that cell empty.
pub open spec fn centre_entity(s: Snake, food: Coordinate, x: int, y: int) -> Entity {
    if line_entity(s, x, y) is Space && food.x == x && food.y == y {
        Entity::Food
    } else {
        line_entity(s, x, y)
    }
}

/// The character drawn at column `x` of the interior row `line`: a
/// segment's glyph, `X` for the food, and otherwise the border post at
/// the outer columns or a blank.
pub open spec fn centre_cell_char(
    s: Snake,
    food: Coordinate,
    width: int,
    x: int,
    line: int,
) -> char {
    match centre_entity(s, food, x, line) {
        Entity::SnakePart(c) => c,
        Entity::Food => 'X',
        Entity::Space => if x == -1 || x == width {
            '|'
        } else {
            ' '
        },
    }
}

/// One interior row of the board as text: every drawable column of row
/// `line`, borders included.
pub fn draw_centre_line(snake: &Snake, food: &Food, width: i32, line: i32) -> (r: String)
    requires
        snake.wf(),
        0 <= width < i32::MAX,
    ensures
        r@.len() == width + 2,
        forall|j: int|
            0 <= j < r@.len() ==> r@[j] == centre_cell_char(
                *snake,
                food.coord,
                width as int,
                j - 1,
                line as int,
            ),
{
    let mut entities = snake_parts_in_line(snake, width, line);
    if food.coord.y == line && food.coord.x >= -1 && food.coord.x <= width {
        let idx = (food.coord.x + 1) as usize;
        if matches!(entities[idx], Entity::Space) {
            entities.set(idx, Entity::Food);
        }
    }

    let mut chars: Vec<char> = Vec::new();
    let mut x: i32 = -1;
    while x <= width
        invariant
            0 <= width < i32::MAX,
            -1 <= x <= width + 1,
            entities@.len() == width + 2,
            forall|j: int|
                0 <= j < entities@.len() ==> entities@[j] == centre_entity(
                    *snake,
                    food.coord,
                    j - 1,
                    line as int,
                ),
            chars@.len() == x + 1,
            forall|j: int|
                0 <= j < chars@.len() ==> chars@[j] == centre_cell_char(
                    *snake,
                    food.coord,
                    width as int,
                    j - 1,
                    line as int,
                ),
        decreases width + 1 - x,
    {
        let idx = (x + 1) as usize;
        let c = match entities[idx] {
            Entity::SnakePart(symbol) => symbol,
            Entity::Food => 'X',
            Entity::Space => {
                if x == -1 || x == width {
                    '|'
                } else {
                    ' '
                }
            },
        };
        chars.push(c);
        x += 1;
    }
    chars_to_string(&chars)
}

/// The character drawn at column `x` of a border row `line`: a corner
/// post at the outer columns, a segment's glyph where the snake strays
/// onto the border row, and the border filler otherwise.
pub open spec fn border_cell_char(s: Snake, width: int, line: int, x: int) -> char {
    if x == -1 || x == width {
        '+'
    } else {
        match line_entity(s, x, line) {
            Entity::SnakePart(c) => c,
            _ => '-',
        }
    }
}

/// The top or bottom border row as text. The row sits one cell outside
/// the playable area — line `-1` above it, line `height` below it — and
/// snake segments that stray onto it are drawn over the filler.
pub fn draw_top_bottom_line(snake: &Snake, width: i32, height: i32, top: bool) -> (r: String)
    requires
        snake.wf(),
        0 <= width < i32::MAX,
    ensures
        r@.len() == width + 2,
        forall|j: int|
            0 <= j < r@.len() ==> r@[j] == border_cell_char(
                *snake,
                width as int,
                if top {
                    -1int
                } else {
                    height as int
                },
                j - 1,
            ),
{
    let line = if top {
        -1
    } else {
        height
    };
    let entities = snake_parts_in_line(snake, width, line);

    let mut chars: Vec<char> = Vec::new();
    let mut x: i32 = -1;
    while x <= width
        invariant
            0 <= width < i32::MAX,
            -1 <= x <= width + 1,
            line as int == if top { -1int } else { height as int },
            entities@.len() == width + 2,
            forall|j: int|
                0 <= j < entities@.len() ==> entities@[j] == line_entity(
                    *snake,
                    j - 1,
                    line as int,
                ),
            chars@.len() == x + 1,
            forall|j: int|
                0 <= j < chars@.len() ==> chars@[j] == border_cell_char(
                    *snake,
                    width as int,
                    line as int,
                    j - 1,
                ),
        decreases width + 1 - x,
    {
        let c = if x == -1 || x == width {
            '+'
        } else {
            let idx = (x + 1) as usize;
            match entities[idx] {
                Entity::SnakePart(symbol) => symbol,
                _ => '-',
            }
        };
        chars.push(c);
        x += 1;
    }
    chars_to_string(&chars)
}

/// The character at text position `j` of screen row `row`: the top border
/// row first, then the interior rows top to bottom, then the bottom
/// border row.
pub open spec fn screen_cell_char(
    s: Snake,
    food: Coordinate,
    width: int,
    height: int,
    row: int,
    j: int,
) -> char {
    if row == 0 {
        border_cell_char(s, width, -1, j - 1)
    } else if row == height + 1 {
        border_cell_char(s, width, height, j - 1)
    } else {
        centre_cell_char(s, food, width, j - 1, row - 1)
    }
}

/// The whole board as rows of text, top to bottom: one top border row,
/// `height` interior rows, one bottom border row, each `width + 2`
/// characters wide. A pure read projection: it mutates nothing and may
/// be called any number of times per tick.
pub fn draw_screen(snake: &Snake, food: &Food, width: i32, height: i32) -> (r: Vec<String>)
    requires
        snake.wf(),
        0 <= width < i32::MAX,
        0 <= height,
    ensures
        r@.len() == height + 2,
        forall|i: int| 0 <= i < r@.len() ==> (#[trigger] r@[i])@.len() == width + 2,
        forall|i: int, j: int|
            0 <= i < r@.len() && 0 <= j < width + 2 ==> r@[i]@[j] == screen_cell_char(
                *snake,
                food.coord,
                width as int,
                height as int,
                i,
                j,
            ),
{
    let mut rows: Vec<String> = Vec::new();
    rows.push(draw_top_bottom_line(snake, width, height, true));

    let mut line_num: i32 = 0;
    while line_num < height
        invariant
            snake.wf(),
            0 <= width < i32::MAX,
            0 <= height,
            0 <= line_num <= height,
            rows@.len() == line_num + 1,
            forall|i: int| 0 <= i < rows@.len() ==> (#[trigger] rows@[i])@.len() == width + 2,
            forall|i: int, j: int|
                0 <= i < rows@.len() && 0 <= j < width + 2 ==> rows@[i]@[j] == screen_cell_char(
                    *snake,
                    food.coord,
                    width as int,
                    height as int,
                    i,
                    j,
                ),
        decreases height - line_num,
    {
        rows.push(draw_centre_line(snake, food, width, line_num));
        line_num += 1;
    }

    rows.push(draw_top_bottom_line(snake, width, height, false));
    rows
}

} // verus!

//! The surface the game loop drives: starting a game and advancing it by
//! one tick. The loop around these calls — input, timing, printing — is
//! an external collaborator; the core never blocks or times itself.

use vstd::prelude::*;

use crate::food::{
    covers_grid, dims_ok, generate_food, max_sparse_size_of, no_food_possible, Food,
};
use crate::geometry::{in_grid, step_in_range};
use crate::snake::{generate_initial_snake, init_row, is_initial_snake, Snake};

verus! {

/// The initial placement fails exactly when the grid has at most two
/// cells: only then can the freshly placed two-segment snake leave no
/// free cell for the food.
proof fn lemma_initial_food(s: Snake, width: int, height: int)
    requires
        0 <= width <= i32::MAX,
        0 <= height <= i32::MAX,
        is_initial_snake(s, width, height),
    ensures
        no_food_possible(s, width, height) <==> width * height <= 2,
{
    let area = width * height;
    let y = init_row(height);

    if area <= 2 {
        assert(s.size >= max_sparse_size_of(area)) by (nonlinear_arith)
            requires
                0 <= area <= 2,
                s.size == 2,
        ;
        if area <= 1 {
            // Either an extent is zero and the grid has no cell at all,
            // or the grid is the single cell (0, 0), which the tail
            // occupies.
            assert forall|x: int, y2: int| 0 <= x < width && 0 <= y2 < height implies
                s.occupies_xy(x, y2) by {
                assert(width == 1 && height == 1) by (nonlinear_arith)
                    requires
                        1 <= width,
                        1 <= height,
                        width * height <= 1,
                ;
                assert(s.parts@[1].coord.x == 0 && s.parts@[1].coord.y == 0);
            }
        }
    }

    if area >= 3 {
        assert(width >= 1 && height >= 1) by (nonlinear_arith)
            requires
                0 <= width,
                0 <= height,
                width * height >= 3,
        ;
        lemma_initial_snake_leaves_a_cell(s, width, height);
    }
}

/// On a grid of at least three cells the initial snake does not cover the
/// grid: some cell is free of both segments.
proof fn lemma_initial_snake_leaves_a_cell(s: Snake, width: int, height: int)
    requires
        1 <= width <= i32::MAX,
        1 <= height <= i32::MAX,
        width * height >= 3,
        is_initial_snake(s, width, height),
    ensures
        !covers_grid(s, width, height),
{
    let y = init_row(height);
    assert(0 <= y < height);
    if width >= 3 {
        // The two segments sit at x = width - 2 and width - 1; the cell
        // (0, y) is free.
        assert(!s.occupies_xy(0, y));
    } else {
        // A narrow grid of at least three cells has at least two rows;
        // some row other than the snake's is entirely free.
        assert(height >= 2) by (nonlinear_arith)
            requires
                1 <= width <= 2,
                width * height >= 3,
        ;
        let y2: int = if y == 0 { 1 } else { 0 };
        assert(0 <= y2 < height);
        assert(!s.occupies_xy(0, y2));
    }
}

/// Start a game: the two-segment snake at the middle of the right edge,
/// and a first food cell. Fails — with no state at all — exactly when the
/// grid is too small to hold the snake and one food cell.
pub fn new_game(width: i32, height: i32) -> (r: Option<(Snake, Food)>)
    requires
        dims_ok(width as int, height as int),
    ensures
        r.is_none() <==> width as int * height as int <= 2,
        match r {
            Some(p) => {
                &&& is_initial_snake(p.0, width as int, height as int)
                &&& p.0.wf()
                &&& in_grid(p.1.coord, width as int, height as int)
                &&& !p.0.occupies(p.1.coord)
            },
            None => true,
        },
{
    let snake = generate_initial_snake(width, height);
    let food = generate_food(&snake, width, height);
    proof {
        lemma_initial_food(snake, width as int, height as int);
    }
    match food {
        Some(food_item) => Some((snake, food_item)),
        None => None,
    }
}

/// One tick of the game: move the snake, and report whether the food was
/// eaten and whether the run is over.
///
/// The move is the whole of the snake's state change: the tuple merely
/// reads the new state. Eating is exactly landing the new head on the
/// food. The run is lost exactly when the move leaves the grid, and never
/// when the new head stays on the grid and avoids every cell the body
/// occupied before the move — in particular a head stepping onto the cell
/// the tail vacates this very tick does not end the run.
pub fn advance(snake: &mut Snake, food: &Food, width: i32, height: i32) -> (r: (bool, bool))
    requires
        old(snake).wf(),
        step_in_range(old(snake).parts@[0].coord, old(snake).direction),
    ensures
        final(snake).direction == old(snake).direction,
        final(snake).parts@ == old(snake).spec_moved_parts(old(snake).spec_grows(food.coord)),
        final(snake).wf(),
        r.0 == old(snake).spec_grows(food.coord),
        r.0 ==> final(snake).size == old(snake).size + 1,
        !r.0 ==> final(snake).size == old(snake).size,
        r.1 == final(snake).spec_lost(width as int, height as int),
        !in_grid(old(snake).spec_new_head().coord, width as int, height as int) ==> r.1,
        in_grid(old(snake).spec_new_head().coord, width as int, height as int) && (forall|i: int|
            0 <= i < old(snake).parts@.len() ==> (#[trigger] old(snake).parts@[i]).coord != old(
                snake,
            ).spec_new_head().coord) ==> !r.1,
{
    snake.move_snake(food);
    let ate = snake.parts[0].coord == food.coord;
    let lost = snake.lost_game(width, height);
    proof {
        let s0 = *old(snake);
        let nh = s0.spec_new_head();
        assert(snake.parts@[0] == nh);
        if in_grid(nh.coord, width as int, height as int) && (forall|i: int|
            0 <= i < s0.parts@.len() ==> (#[trigger] s0.parts@[i]).coord != nh.coord) {
            assert forall|i: int| 1 <= i < snake.parts@.len() implies (
            #[trigger] snake.parts@[i]).coord != nh.coord by {
                if i == 1 {
                    assert(snake.parts@[1].coord == s0.parts@[0].coord);
                } else {
                    assert(snake.parts@[i].coord == s0.parts@[i - 1].coord);
                }
            }
        }
    }
    (ate, lost)
}

} // verus!

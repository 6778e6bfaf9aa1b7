//! Food: a single coordinate, never on the snake at the moment it is
//! placed, and the placement policy that chooses the next one.
//!
//! Placement has two regimes, selected by how full the grid is. While the
//! snake is small, cells are sampled at random and rejected until a free
//! one turns up; the sampling is capped, with the enumerating regime as
//! fallback, so placement always terminates. Once the snake covers a
//! fixed share of the grid, the free cells are enumerated outright and
//! one of them is picked, so placement cannot loop unboundedly near
//! saturation. A completely filled grid has no placement at all, which
//! the caller reads as victory.

use vstd::prelude::*;
use vstd::seq_lib::*;
use vstd::set_lib::lemma_len_subset;

use rand::seq::SliceRandom;
use rand::Rng;

use crate::geometry::{in_grid, Coordinate};
use crate::snake::{Snake, SnakePart};

verus! {

/// How many random cells the sparse regime tries before it falls back to
/// enumerating the free cells.
pub const SPARSE_ATTEMPTS: usize = 128;

/// Grid bounds the placement routines accept: no negative extent, and a
/// total cell count small enough that the occupancy arithmetic stays well
/// inside machine integers.
pub open spec fn dims_ok(width: int, height: int) -> bool {
    &&& 0 <= width
    &&& 0 <= height
    &&& width * height <= 100_000_000
}

/// The sparse threshold as a function of the cell count alone: three
/// tenths of it, the fixed occupancy share past which rejection sampling
/// is no longer acceptable.
pub open spec fn max_sparse_size_of(area: int) -> int {
    area * 3 / 10
}

/// The snake size at which placement switches from rejection sampling to
/// enumerating the free cells.
pub open spec fn max_sparse_size(width: int, height: int) -> int {
    max_sparse_size_of(width * height)
}

/// Every cell of the grid is occupied by some snake segment.
pub open spec fn covers_grid(s: Snake, width: int, height: int) -> bool {
    forall|x: int, y: int|
        0 <= x < width && 0 <= y < height ==> s.occupies_xy(x, y)
}

/// The exact condition under which placement reports that no food can be
/// placed: the snake is past the sparse threshold, and either its size
/// equals the cell count or its segments cover every cell. For a snake
/// whose segments lie on the grid without overlap the condition coincides
/// with saturation (`lemma_food_saturation`).
pub open spec fn no_food_possible(s: Snake, width: int, height: int) -> bool {
    &&& s.size >= max_sparse_size(width, height)
    &&& (s.size == width * height || covers_grid(s, width, height))
}

/// The food the snake is after: one cell of the grid.
#[derive(Clone, Copy, Debug)]
pub struct Food {
    pub coord: Coordinate,
}

impl Food {
    /// True exactly when some segment of `snake` occupies the food's cell.
    pub fn is_on_snake(&self, snake: &Snake) -> (r: bool)
        ensures
            r == snake.occupies(self.coord),
    {
        let mut k: usize = 0;
        while k < snake.parts.len()
            invariant
                0 <= k <= snake.parts@.len(),
                forall|i: int|
                    0 <= i < k ==> (#[trigger] snake.parts@[i]).coord != self.coord,
            decreases snake.parts@.len() - k,
        {
            if snake.parts[k].coord == self.coord {
                return true;
            }
            k += 1;
        }
        false
    }
}

/// Relies on `rand::Rng::gen_range` over the inclusive range `lo..=hi`:
/// it returns a uniformly sampled value of that range, and panics only
/// when the range is empty, which the precondition rules out.
#[verifier::external_body]
fn rand_in_range(lo: i32, hi: i32) -> (r: i32)
    requires
        lo <= hi,
    ensures
        lo <= r <= hi,
{
    rand::thread_rng().gen_range(lo..=hi)
}

/// Relies on `rand::seq::SliceRandom::choose`: it returns `None` exactly
/// when the slice is empty, and otherwise a reference to one of its
/// elements, picked at a uniformly sampled index.
#[verifier::external_body]
fn choose_coordinate(v: &Vec<Coordinate>) -> (r: Option<Coordinate>)
    ensures
        match r {
            Some(c) => exists|i: int| 0 <= i < v@.len() && v@[i] == c,
            None => v@.len() == 0,
        },
{
    v.as_slice().choose(&mut rand::thread_rng()).copied()
}

/// The cell `(x, y)` appears among `cells`.
pub open spec fn cell_listed(cells: Seq<Coordinate>, x: int, y: int) -> bool {
    exists|k: int|
        0 <= k < cells.len() && (#[trigger] cells[k]).x == x && cells[k].y == y
}

proof fn lemma_cell_listed_push(cells: Seq<Coordinate>, c: Coordinate, x: int, y: int)
    ensures
        cell_listed(cells, x, y) ==> cell_listed(cells.push(c), x, y),
        c.x == x && c.y == y ==> cell_listed(cells.push(c), x, y),
{
    if cell_listed(cells, x, y) {
        let k = choose|k: int|
            0 <= k < cells.len() && (#[trigger] cells[k]).x == x && cells[k].y == y;
        assert(cells.push(c)[k] == cells[k]);
    }
    if c.x == x && c.y == y {
        assert(cells.push(c)[cells.len() as int] == c);
    }
}

/// The cells of one grid column of extent `h`, as integer pairs.
pub open spec fn column_pairs(x: int, h: int) -> Set<(int, int)> {
    Set::new(|p: (int, int)| p.0 == x && 0 <= p.1 < h)
}

/// The cells of a `w` by `h` grid, as integer pairs.
pub open spec fn grid_pairs(w: int, h: int) -> Set<(int, int)> {
    Set::new(|p: (int, int)| 0 <= p.0 < w && 0 <= p.1 < h)
}

/// The cells the snake's segments occupy, in segment order, as integer
/// pairs.
pub open spec fn coord_pairs(parts: Seq<SnakePart>) -> Seq<(int, int)> {
    parts.map_values(|p: SnakePart| (p.coord.x as int, p.coord.y as int))
}

/// The set of cells the snake's segments occupy, as integer pairs.
pub open spec fn occupied_pairs(s: Snake) -> Set<(int, int)> {
    coord_pairs(s.parts@).to_set()
}

proof fn lemma_disjoint_union_len<A>(s1: Set<A>, s2: Set<A>)
    requires
        s1.finite(),
        s2.finite(),
        s1.disjoint(s2),
    ensures
        s1.union(s2).finite(),
        s1.union(s2).len() == s1.len() + s2.len(),
    decreases s2.len(),
{
    broadcast use vstd::set::group_set_axioms;

    if s2.len() == 0 {
        assert(s2 =~= Set::empty());
        assert(s1.union(s2) =~= s1);
    } else {
        let a = s2.choose();
        lemma_disjoint_union_len(s1, s2.remove(a));
        assert(s1.union(s2) =~= s1.union(s2.remove(a)).insert(a));
        assert(!s1.union(s2.remove(a)).contains(a));
    }
}

proof fn lemma_column_pairs_len(x: int, h: int)
    requires
        0 <= h,
    ensures
        column_pairs(x, h).finite(),
        column_pairs(x, h).len() == h,
    decreases h,
{
    broadcast use vstd::set::group_set_axioms;

    if h == 0 {
        assert(column_pairs(x, 0) =~= Set::empty());
    } else {
        lemma_column_pairs_len(x, h - 1);
        assert(column_pairs(x, h) =~= column_pairs(x, h - 1).insert((x, h - 1)));
        assert(!column_pairs(x, h - 1).contains((x, h - 1)));
    }
}

proof fn lemma_grid_pairs_len(w: int, h: int)
    requires
        0 <= w,
        0 <= h,
    ensures
        grid_pairs(w, h).finite(),
        grid_pairs(w, h).len() == w * h,
    decreases w,
{
    broadcast use vstd::set::group_set_axioms;

    if w == 0 {
        assert(grid_pairs(0, h) =~= Set::empty());
        assert(0 * h == 0) by (nonlinear_arith);
    } else {
        lemma_grid_pairs_len(w - 1, h);
        lemma_column_pairs_len(w - 1, h);
        assert(grid_pairs(w, h) =~= grid_pairs(w - 1, h).union(column_pairs(w - 1, h)));
        lemma_disjoint_union_len(grid_pairs(w - 1, h), column_pairs(w - 1, h));
        assert((w - 1) * h + h == w * h) by (nonlinear_arith);
    }
}

/// A snake whose segments cover every cell of a `w` by `h` grid has at
/// least as many segments as the grid has cells.
proof fn lemma_covers_grid_size(s: Snake, w: int, h: int)
    requires
        s.wf(),
        0 <= w,
        0 <= h,
        covers_grid(s, w, h),
    ensures
        s.size >= w * h,
{
    broadcast use seq_to_set_is_finite;

    let pairs = coord_pairs(s.parts@);
    assert forall|p: (int, int)| grid_pairs(w, h).contains(p) implies occupied_pairs(
        s,
    ).contains(p) by {
        assert(s.occupies_xy(p.0, p.1));
        let i = choose|i: int|
            0 <= i < s.parts@.len() && (#[trigger] s.parts@[i]).coord.x == p.0
                && s.parts@[i].coord.y == p.1;
        assert(pairs[i] == p);
        assert(pairs.contains(p));
    }
    lemma_grid_pairs_len(w, h);
    lemma_len_subset(grid_pairs(w, h), occupied_pairs(s));
    pairs.lemma_cardinality_of_set();
}

/// A well-formed snake whose segments all lie on the grid, no two on the
/// same cell, has at most as many segments as the grid has cells.
proof fn lemma_valid_size_bounded(s: Snake, w: int, h: int)
    requires
        s.valid_on_grid(w, h),
        0 <= w,
        0 <= h,
    ensures
        s.size <= w * h,
{
    let pairs = coord_pairs(s.parts@);
    assert forall|i: int, j: int| 0 <= i < j < pairs.len() implies pairs[i] != pairs[j] by {
        assert(s.parts@[i].coord != s.parts@[j].coord);
    }
    assert(pairs.no_duplicates());
    pairs.unique_seq_to_set();
    assert forall|p: (int, int)| occupied_pairs(s).contains(p) implies grid_pairs(
        w,
        h,
    ).contains(p) by {
        let i = choose|i: int| 0 <= i < pairs.len() && pairs[i] == p;
        assert(in_grid(s.parts@[i].coord, w, h));
    }
    lemma_grid_pairs_len(w, h);
    lemma_len_subset(occupied_pairs(s), grid_pairs(w, h));
}

/// For any non-negative cell count the sparse threshold does not exceed
/// the cell count itself, and lies strictly below it once the grid can
/// hold a snake at all.
proof fn lemma_sparse_threshold_below_area(area: int)
    requires
        0 <= area,
    ensures
        max_sparse_size_of(area) <= area,
        2 <= area ==> max_sparse_size_of(area) < area,
{
    assert(area * 3 / 10 <= area && (2 <= area ==> area * 3 / 10 < area)) by (nonlinear_arith)
        requires
            0 <= area,
    ;
}

/// Placement reports "no food possible" exactly at saturation: for a
/// snake that lies on the grid with no two segments on the same cell,
/// `no_food_possible` holds if and only if the snake's size equals the
/// grid's cell count.
pub proof fn lemma_food_saturation(s: Snake, width: int, height: int)
    requires
        s.valid_on_grid(width, height),
        0 <= width,
        0 <= height,
    ensures
        no_food_possible(s, width, height) <==> s.size == width * height,
{
    let area = width * height;
    lemma_valid_size_bounded(s, width, height);
    if s.size == area {
        lemma_sparse_threshold_below_area(area);
    }
    if no_food_possible(s, width, height) && s.size != area {
        lemma_covers_grid_size(s, width, height);
    }
}

/// Choose the next food cell, or report that none is free.
///
/// Whatever the random draws come to, the returned cell lies on the grid
/// and on no segment of the snake, at every occupancy level; and the
/// result is `None` exactly under `no_food_possible`.
pub fn generate_food(snake: &Snake, width: i32, height: i32) -> (r: Option<Food>)
    requires
        snake.wf(),
        dims_ok(width as int, height as int),
    ensures
        r.is_none() <==> no_food_possible(*snake, width as int, height as int),
        match r {
            Some(f) => in_grid(f.coord, width as int, height as int) && !snake.occupies(f.coord),
            None => true,
        },
{
    let area: usize = (width as usize) * (height as usize);
    let max_size: usize = area * 3 / 10;

    if snake.size < max_size {
        proof {
            // Past two segments under the threshold means a grid of at
            // least ten cells, so both extents are positive.
            assert(width as int * height as int >= 10);
            assert(width >= 1 && height >= 1) by (nonlinear_arith)
                requires
                    0 <= width,
                    0 <= height,
                    width as int * height as int >= 10,
            ;
        }
        let mut rand_x = rand_in_range(0, width - 1);
        let mut rand_y = rand_in_range(0, height - 1);
        let mut food = Food { coord: Coordinate { x: rand_x, y: rand_y } };

        let mut occupied = food.is_on_snake(snake);
        let mut attempts: usize = 0;
        while occupied && attempts < SPARSE_ATTEMPTS
            invariant
                0 <= food.coord.x < width,
                0 <= food.coord.y < height,
                1 <= width,
                1 <= height,
                occupied == snake.occupies(food.coord),
            decreases SPARSE_ATTEMPTS - attempts,
        {
            rand_x = rand_in_range(0, width - 1);
            rand_y = rand_in_range(0, height - 1);
            food.coord = Coordinate { x: rand_x, y: rand_y };
            occupied = food.is_on_snake(snake);
            attempts += 1;
        }
        if !occupied {
            return Some(food);
        }
    } else if snake.size == area {
        proof {
            lemma_sparse_threshold_below_area(width as int * height as int);
        }
        return None;
    }

    let mut valid_coords: Vec<Coordinate> = Vec::new();
    let mut x_counter: i32 = 0;
    while x_counter < width
        invariant
            dims_ok(width as int, height as int),
            0 <= x_counter <= width,
            forall|k: int|
                0 <= k < valid_coords@.len() ==> in_grid(
                    #[trigger] valid_coords@[k],
                    width as int,
                    height as int,
                ) && !snake.occupies(valid_coords@[k]),
            forall|x: int, y: int|
                0 <= x < x_counter && 0 <= y < height && !(#[trigger] snake.occupies_xy(
                    x,
                    y,
                )) ==> cell_listed(valid_coords@, x, y),
        decreases width - x_counter,
    {
        let mut y_counter: i32 = 0;
        while y_counter < height
            invariant
                dims_ok(width as int, height as int),
                0 <= x_counter < width,
                0 <= y_counter <= height,
                forall|k: int|
                    0 <= k < valid_coords@.len() ==> in_grid(
                        #[trigger] valid_coords@[k],
                        width as int,
                        height as int,
                    ) && !snake.occupies(valid_coords@[k]),
                forall|x: int, y: int|
                    0 <= x < x_counter && 0 <= y < height && !(#[trigger] snake.occupies_xy(
                        x,
                        y,
                    )) ==> cell_listed(valid_coords@, x, y),
                forall|y: int|
                    0 <= y < y_counter && !(#[trigger] snake.occupies_xy(
                        x_counter as int,
                        y,
                    )) ==> cell_listed(valid_coords@, x_counter as int, y),
            decreases height - y_counter,
        {
            let coord = Coordinate { x: x_counter, y: y_counter };
            let ghost pre = valid_coords@;
            if !(Food { coord }.is_on_snake(snake)) {
                valid_coords.push(coord);
            }
            proof {
                assert forall|x: int, y: int|
                    0 <= x < x_counter && 0 <= y < height && !(#[trigger] snake.occupies_xy(
                        x,
                        y,
                    )) implies cell_listed(valid_coords@, x, y) by {
                    lemma_cell_listed_push(pre, coord, x, y);
                }
                assert forall|y: int|
                    0 <= y < y_counter + 1 && !(#[trigger] snake.occupies_xy(
                        x_counter as int,
                        y,
                    )) implies cell_listed(valid_coords@, x_counter as int, y) by {
                    lemma_cell_listed_push(pre, coord, x_counter as int, y);
                }
            }
            y_counter += 1;
        }
        x_counter += 1;
    }

    match choose_coordinate(&valid_coords) {
        Some(rand_coord) => {
            proof {
                let c = rand_coord;
                let k = choose|k: int| 0 <= k < valid_coords@.len() && valid_coords@[k] == c;
                assert(!snake.occupies_xy(c.x as int, c.y as int));
            }
            Some(Food { coord: rand_coord })
        },
        None => {
            proof {
                assert forall|x: int, y: int|
                    0 <= x < width && 0 <= y < height implies snake.occupies_xy(x, y) by {
                    if !snake.occupies_xy(x, y) {
                        assert(cell_listed(valid_coords@, x, y));
                    }
                }
                if snake.size < max_size {
                    // An empty enumeration cannot coexist with the sparse
                    // regime: a covering snake is at least as long as the
                    // grid's cell count, which the threshold lies below.
                    lemma_covers_grid_size(*snake, width as int, height as int);
                    lemma_sparse_threshold_below_area(width as int * height as int);
                }
            }
            None
        },
    }
}

} // verus!

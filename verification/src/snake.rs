//! The snake: an ordered sequence of body segments (head first) plus the
//! heading applied on the next move. Owns movement, growth, and the
//! off-grid / self-collision checks.

use vstd::prelude::*;

use crate::food::Food;
use crate::geometry::{
    dx, dy, in_grid, spec_opposite, step_coord, step_in_range, Coordinate, Direction,
};

verus! {

/// One occupied cell of the snake's body. `direction` is the heading the
/// segment had when it came to occupy its cell; it matters only for the
/// head's glyph, never for collision logic. Exactly one segment of a
/// well-formed snake has `is_head` set, and it is the first one.
#[derive(Clone, Copy, Debug)]
pub struct SnakePart {
    pub coord: Coordinate,
    pub direction: Direction,
    pub is_head: bool,
}

/// `p` with its head mark cleared and everything else kept.
pub open spec fn demoted(p: SnakePart) -> SnakePart {
    SnakePart { coord: p.coord, direction: p.direction, is_head: false }
}

/// The glyph a segment is drawn with: a directional arrow for the head,
/// a uniform glyph for body segments.
pub open spec fn spec_symbol(p: SnakePart) -> char {
    if p.is_head {
        match p.direction {
            Direction::Up => '^',
            Direction::Down => 'v',
            Direction::Left => '<',
            Direction::Right => '>',
        }
    } else {
        'O'
    }
}

impl SnakePart {
    /// The glyph this segment is drawn with.
    pub fn symbol(&self) -> (r: char)
        ensures
            r == spec_symbol(*self),
    {
        if self.is_head {
            match self.direction {
                Direction::Up => '^',
                Direction::Down => 'v',
                Direction::Left => '<',
                Direction::Right => '>',
            }
        } else {
            'O'
        }
    }
}

/// The snake. `parts` is ordered head first; `size` is the target length,
/// which equals `parts.len()` after every completed move; `direction` is
/// the heading the next move applies, distinct from the headings stored in
/// the segments.
#[derive(Debug)]
pub struct Snake {
    pub parts: Vec<SnakePart>,
    pub size: usize,
    pub direction: Direction,
}

impl Snake {
    /// Structural well-formedness: the segment count matches `size`, the
    /// snake never shrinks below its initial two segments, and the head
    /// mark sits exactly on the first segment.
    pub open spec fn wf(self) -> bool {
        &&& self.parts@.len() == self.size
        &&& self.size >= 2
        &&& self.parts@[0].is_head
        &&& forall|i: int| 1 <= i < self.parts@.len() ==> !(#[trigger] self.parts@[i]).is_head
    }

    /// Some segment occupies the cell `(x, y)`.
    pub open spec fn occupies_xy(self, x: int, y: int) -> bool {
        exists|i: int|
            0 <= i < self.parts@.len() && (#[trigger] self.parts@[i]).coord.x == x
                && self.parts@[i].coord.y == y
    }

    /// Some segment occupies the cell `c`.
    pub open spec fn occupies(self, c: Coordinate) -> bool {
        self.occupies_xy(c.x as int, c.y as int)
    }

    /// The head segment a move of `self` creates: one step from the current
    /// head in the intended direction, marked as head.
    pub open spec fn spec_new_head(self) -> SnakePart {
        SnakePart {
            coord: step_coord(self.parts@[0].coord, self.direction),
            direction: self.direction,
            is_head: true,
        }
    }

    /// A move grows the snake exactly when the new head lands on the food.
    pub open spec fn spec_grows(self, food_at: Coordinate) -> bool {
        self.spec_new_head().coord == food_at
    }

    /// The segment sequence after a move of `self`: the new head is
    /// prepended, the old head is demoted in place, the body follows by
    /// shifting one position, and unless the snake grew the oldest segment
    /// is dropped.
    pub open spec fn spec_moved_parts(self, grew: bool) -> Seq<SnakePart> {
        let shifted = seq![self.spec_new_head(), demoted(self.parts@[0])] + self.parts@.skip(1);
        if grew {
            shifted
        } else {
            shifted.drop_last()
        }
    }

    /// The head has left the playable area.
    pub open spec fn spec_off_grid(self, width: int, height: int) -> bool {
        !in_grid(self.parts@[0].coord, width, height)
    }

    /// Some body segment occupies the head's cell.
    pub open spec fn spec_self_collision(self) -> bool {
        exists|i: int|
            1 <= i < self.parts@.len() && (#[trigger] self.parts@[i]).coord
                == self.parts@[0].coord
    }

    /// The run is over: the head left the grid or ran into the body.
    pub open spec fn spec_lost(self, width: int, height: int) -> bool {
        self.spec_off_grid(width, height) || self.spec_self_collision()
    }

    /// A snake as it can occur mid-game on a `width` by `height` grid:
    /// well formed, every segment on the grid, and no two segments on the
    /// same cell.
    pub open spec fn valid_on_grid(self, width: int, height: int) -> bool {
        &&& self.wf()
        &&& forall|i: int|
            0 <= i < self.parts@.len() ==> in_grid(
                (#[trigger] self.parts@[i]).coord,
                width,
                height,
            )
        &&& forall|i: int, j: int|
            0 <= i < j < self.parts@.len() ==> (#[trigger] self.parts@[i]).coord != (
            #[trigger] self.parts@[j]).coord
    }

    /// Update the intended heading to `direction`, unless that would
    /// reverse the head's current heading in one move — such a request is
    /// silently ignored, and a snake without segments is left untouched.
    pub fn change_direction(&mut self, direction: Direction)
        ensures
            old(self).parts@.len() == 0 ==> *final(self) == *old(self),
            old(self).parts@.len() > 0 && spec_opposite(direction, old(self).parts@[0].direction)
                ==> *final(self) == *old(self),
            old(self).parts@.len() > 0 && !spec_opposite(direction, old(self).parts@[0].direction)
                ==> final(self).direction == direction,
            final(self).parts == old(self).parts,
            final(self).size == old(self).size,
    {
        let option_head = self.parts.get(0);
        match option_head {
            None => (),
            Some(head) => {
                if !direction.is_opposite(&head.direction) {
                    self.direction = direction;
                }
            },
        }
    }

    /// One move of the snake. The new head is one step from the old head
    /// in the intended direction; the old head is demoted to a body
    /// segment; the snake grows by one exactly when the new head lands on
    /// the food, and otherwise the oldest segment is dropped so the length
    /// again equals `size`.
    pub fn move_snake(&mut self, food: &Food)
        requires
            old(self).wf(),
            step_in_range(old(self).parts@[0].coord, old(self).direction),
        ensures
            final(self).direction == old(self).direction,
            final(self).parts@ == old(self).spec_moved_parts(
                old(self).spec_grows(food.coord),
            ),
            old(self).spec_grows(food.coord) ==> final(self).size == old(self).size + 1,
            !old(self).spec_grows(food.coord) ==> final(self).size == old(self).size,
            final(self).wf(),
    {
        let direction = self.direction;

        let mut old_head = self.parts.remove(0);
        old_head.is_head = false;

        let new_head = SnakePart {
            coord: old_head.coord.increment(&direction),
            direction,
            is_head: true,
        };
        let grew = new_head.coord == food.coord;

        self.parts.insert(0, old_head);
        self.parts.insert(0, new_head);

        proof {
            assert(self.parts@ =~= old(self).spec_moved_parts(true));
            // The sequence now holds one segment more than `size`, and a
            // vector's length fits in usize, so the grown size does too.
            assert(self.parts.len() == self.parts@.len());
        }

        if grew {
            self.size = self.size + 1;
        } else {
            self.parts.remove(self.size);
            proof {
                assert(self.parts@ =~= old(self).spec_moved_parts(false));
            }
        }
    }

    /// True exactly when the head's cell lies outside
    /// `[0, width) x [0, height)`. Only the head is checked: with
    /// single-step movement the body cannot leave the grid without the
    /// head having crossed the boundary first.
    pub fn is_off_screen(&self, width: i32, height: i32) -> (r: bool)
        requires
            self.parts@.len() > 0,
        ensures
            r == self.spec_off_grid(width as int, height as int),
    {
        let snake_part = &self.parts[0];
        let x = snake_part.coord.x;
        let y = snake_part.coord.y;

        x < 0 || x >= width || y < 0 || y >= height
    }

    /// True exactly when some body segment occupies the head's cell,
    /// evaluated on the state after a move, so the segment vacated by that
    /// move is never compared against the new head.
    pub fn ate_itself(&self) -> (r: bool)
        requires
            self.parts@.len() > 0,
        ensures
            r == self.spec_self_collision(),
    {
        let head_coord = self.parts[0].coord;

        let mut counter: usize = 1;
        while counter < self.parts.len()
            invariant
                1 <= counter <= self.parts@.len(),
                self.parts@.len() > 0,
                head_coord == self.parts@[0].coord,
                forall|i: int|
                    1 <= i < counter ==> (#[trigger] self.parts@[i]).coord
                        != self.parts@[0].coord,
            decreases self.parts@.len() - counter,
        {
            let current_part = &self.parts[counter];
            if current_part.coord == head_coord {
                return true;
            }
            counter += 1;
        }
        false
    }

    /// The run is over: off the grid or collided with the own body.
    pub fn lost_game(&self, width: i32, height: i32) -> (r: bool)
        requires
            self.parts@.len() > 0,
        ensures
            r == self.spec_lost(width as int, height as int),
    {
        self.is_off_screen(width, height) || self.ate_itself()
    }
}

/// The row the initial snake is placed on: the middle row, rounded towards
/// the top on grids with an even height.
pub open spec fn init_row(height: int) -> int {
    if height % 2 == 1 {
        height / 2
    } else {
        height / 2 - 1
    }
}

/// The snake every game starts with: two segments on the middle row at the
/// right edge of the grid, heading left.
pub open spec fn is_initial_snake(s: Snake, width: int, height: int) -> bool {
    &&& s.size == 2
    &&& s.direction == Direction::Left
    &&& s.parts@.len() == 2
    &&& s.parts@[0] == (SnakePart {
        coord: Coordinate { x: (width - 2) as i32, y: init_row(height) as i32 },
        direction: Direction::Left,
        is_head: true,
    })
    &&& s.parts@[1] == (SnakePart {
        coord: Coordinate { x: (width - 1) as i32, y: init_row(height) as i32 },
        direction: Direction::Left,
        is_head: false,
    })
}

/// The two-segment snake a game starts with, heading left with its head at
/// `(width - 2, init_row(height))` and its tail right of the head.
pub fn generate_initial_snake(width: i32, height: i32) -> (r: Snake)
    requires
        0 <= height,
        i32::MIN + 2 <= width,
    ensures
        is_initial_snake(r, width as int, height as int),
        r.wf(),
{
    let y_position = if height % 2 == 1 {
        height / 2
    } else {
        height / 2 - 1
    };

    let snake_tail = SnakePart {
        coord: Coordinate { x: width - 1, y: y_position },
        direction: Direction::Left,
        is_head: false,
    };

    let snake_head = SnakePart {
        coord: Coordinate { x: width - 2, y: y_position },
        direction: Direction::Left,
        is_head: true,
    };

    let snake_parts = vec![snake_head, snake_tail];

    Snake { parts: snake_parts, size: 2, direction: Direction::Left }
}

} // verus!

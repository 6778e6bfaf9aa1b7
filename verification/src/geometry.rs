//! Integer grid coordinates and the four cardinal directions.
//!
//! `(0, 0)` is the top left of the playable area; `Up` decreases the
//! y-coordinate and `Down` increases it, a convention shared by movement
//! and rendering.

use vstd::prelude::*;

verus! {

/// One of the four cardinal headings.
#[derive(Clone, Copy, Debug, PartialEq, Eq, Structural)]
pub enum Direction {
    Up,
    Left,
    Right,
    Down,
}

/// A grid cell, measured in cells from the top-left corner of the playable
/// area. Off-grid values are legal: leaving the grid is a terminal condition
/// detected after a move, not an error of coordinate arithmetic.
#[derive(Clone, Copy, Debug, PartialEq, Eq, Structural)]
pub struct Coordinate {
    pub x: i32,
    pub y: i32,
}

/// Change of the x-coordinate when stepping once in direction `d`.
pub open spec fn dx(d: Direction) -> int {
    match d {
        Direction::Left => -1,
        Direction::Right => 1,
        _ => 0,
    }
}

/// Change of the y-coordinate when stepping once in direction `d`.
pub open spec fn dy(d: Direction) -> int {
    match d {
        Direction::Up => -1,
        Direction::Down => 1,
        _ => 0,
    }
}

/// The cell one step away from `c` in direction `d`.
pub open spec fn step_coord(c: Coordinate, d: Direction) -> Coordinate {
    Coordinate { x: (c.x + dx(d)) as i32, y: (c.y + dy(d)) as i32 }
}

/// True when stepping from `c` in direction `d` stays within `i32` range,
/// so that `step_coord` is ordinary integer arithmetic with no wrap-around.
pub open spec fn step_in_range(c: Coordinate, d: Direction) -> bool {
    i32::MIN <= c.x + dx(d) <= i32::MAX && i32::MIN <= c.y + dy(d) <= i32::MAX
}

/// `d1` and `d2` are the two members of one of the canonical pairs
/// Up/Down or Left/Right.
pub open spec fn spec_opposite(d1: Direction, d2: Direction) -> bool {
    match (d1, d2) {
        (Direction::Up, Direction::Down) => true,
        (Direction::Down, Direction::Up) => true,
        (Direction::Left, Direction::Right) => true,
        (Direction::Right, Direction::Left) => true,
        _ => false,
    }
}

/// `c` lies within the playable area `[0, width) x [0, height)`.
pub open spec fn in_grid(c: Coordinate, width: int, height: int) -> bool {
    0 <= c.x < width && 0 <= c.y < height
}

impl Coordinate {
    /// The coordinate one cell away in the given direction. No bounds
    /// checking against the grid: off-grid results are legal intermediate
    /// values.
    pub fn increment(&self, direction: &Direction) -> (r: Coordinate)
        requires
            step_in_range(*self, *direction),
        ensures
            r == step_coord(*self, *direction),
            r.x == self.x + dx(*direction),
            r.y == self.y + dy(*direction),
    {
        match direction {
            Direction::Up => Coordinate { x: self.x, y: self.y - 1 },
            Direction::Down => Coordinate { x: self.x, y: self.y + 1 },
            Direction::Left => Coordinate { x: self.x - 1, y: self.y },
            Direction::Right => Coordinate { x: self.x + 1, y: self.y },
        }
    }
}

impl Direction {
    /// True exactly for the two canonical opposite pairs; no direction is
    /// opposite to itself.
    pub fn is_opposite(&self, direction: &Direction) -> (r: bool)
        ensures
            r == spec_opposite(*self, *direction),
    {
        match self {
            Direction::Up => matches!(direction, Direction::Down),
            Direction::Down => matches!(direction, Direction::Up),
            Direction::Left => matches!(direction, Direction::Right),
            Direction::Right => matches!(direction, Direction::Left),
        }
    }
}

} // verus!

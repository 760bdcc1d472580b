use vstd::prelude::*;

verus! {

/// A cell of the playing field, by column `x` and row `y`.
#[derive(Clone, Copy, Debug, PartialEq, Eq, Structural)]
pub struct Point {
    pub x: i32,
    pub y: i32,
}

/// A heading of the snake. Rows grow downwards, columns to the right.
#[derive(Clone, Copy, Debug, PartialEq, Eq, Structural)]
pub enum Direction {
    Up,
    Down,
    Right,
    Left,
}

/// The heading that points the other way.
pub open spec fn opposite(d: Direction) -> Direction {
    match d {
        Direction::Up => Direction::Down,
        Direction::Down => Direction::Up,
        Direction::Left => Direction::Right,
        Direction::Right => Direction::Left,
    }
}

/// A coordinate after a step of the snake has taken it to `v`: below zero it
/// re-enters at the far edge, at or past `bound` it re-enters at zero.
pub open spec fn wrap(v: int, bound: int) -> int {
    if v < 0 {
        bound - 1
    } else if v >= bound {
        0
    } else {
        v
    }
}

/// The cell one step from `p` in direction `d` on a `width` by `height` field
/// whose edges wrap around.
pub open spec fn step(p: Point, d: Direction, width: int, height: int) -> (int, int) {
    match d {
        Direction::Up => (wrap(p.x as int, width), wrap(p.y - 1, height)),
        Direction::Down => (wrap(p.x as int, width), wrap(p.y + 1, height)),
        Direction::Right => (wrap(p.x + 1, width), wrap(p.y as int, height)),
        Direction::Left => (wrap(p.x - 1, width), wrap(p.y as int, height)),
    }
}

impl Direction {
    /// The heading that points the other way.
    pub fn get_opposite(direction: &Direction) -> (r: Direction)
        ensures
            r == opposite(*direction),
    {
        match *direction {
            Direction::Up => Direction::Down,
            Direction::Down => Direction::Up,
            Direction::Left => Direction::Right,
            Direction::Right => Direction::Left,
        }
    }

    /// Whether `direction` points the opposite way to `self`.
    pub fn is_opposite(&self, direction: &Direction) -> (r: bool)
        ensures
            r == (opposite(*self) == *direction),
    {
        Direction::get_opposite(self) == *direction
    }
}

/// Turning around twice faces the original way: `opposite` is an involution.
pub proof fn lemma_opposite_involutive(d: Direction)
    ensures
        opposite(opposite(d)) == d,
{
}

/// Leaving the field over an edge re-enters at the opposite edge, on either
/// axis and in either direction.
pub proof fn lemma_wrap_at_edges(x: i32, y: i32, width: int, height: int)
    requires
        width > 0,
        height > 0,
    ensures
        step(Point { x: 0, y }, Direction::Left, width, height).0 == width - 1,
        x == width - 1 ==> step(Point { x, y }, Direction::Right, width, height).0 == 0,
        step(Point { x, y: 0 }, Direction::Up, width, height).1 == height - 1,
        y == height - 1 ==> step(Point { x, y }, Direction::Down, width, height).1 == 0,
{
}

} // verus!

use vstd::prelude::*;
use crate::geometry::{Direction, Point, opposite, step, wrap};

verus! {

/// The single piece of food on the field.
#[derive(Clone, Copy, Debug, PartialEq, Eq, Structural)]
pub struct Food {
    pub position: Point,
}

/// The snake: its head, its heading, and the cells its body occupies,
/// most recent first.
#[derive(Debug)]
pub struct Snake {
    pub head: Point,
    pub direction: Direction,
    pub body: Vec<Point>,
}

/// The body after the head has moved on: the old head leads the body, and
/// unless the snake is growing the oldest segment is gone.
pub open spec fn moved_body(head: Point, body: Seq<Point>, is_growing: bool) -> Seq<Point> {
    if is_growing {
        seq![head] + body
    } else {
        (seq![head] + body).drop_last()
    }
}

/// A move without growth keeps the body's length; a move with growth
/// lengthens it by exactly one segment.
pub proof fn lemma_moved_body_length(head: Point, body: Seq<Point>, is_growing: bool)
    ensures
        is_growing ==> moved_body(head, body, is_growing).len() == body.len() + 1,
        !is_growing ==> moved_body(head, body, is_growing).len() == body.len(),
{
}

/// Whether some segment of `body` lies on `head`.
pub open spec fn collides(head: Point, body: Seq<Point>) -> bool {
    exists|i: int| 0 <= i < body.len() && body[i] == head
}

/// One coordinate after the move, computed wide enough that no step
/// overflows, then brought back onto the field.
fn wrap_coordinate(v: i64, bound: i32) -> (r: i32)
    requires
        bound > 0,
        i32::MIN - 1 <= v <= i32::MAX + 1,
    ensures
        r == wrap(v as int, bound as int),
{
    if v < 0 {
        bound - 1
    } else if v >= bound as i64 {
        0
    } else {
        v as i32
    }
}

impl Snake {
    /// Moves the snake one cell in its direction on a `main_window_x` by
    /// `main_window_y` field whose edges wrap around. The old head becomes
    /// the front of the body; the tail is dropped unless the snake grows.
    pub fn move_body(&mut self, is_growing: &bool, main_window_x: &i32, main_window_y: &i32)
        requires
            *main_window_x > 0,
            *main_window_y > 0,
        ensures
            final(self).body@ == moved_body(old(self).head, old(self).body@, *is_growing),
            *is_growing ==> final(self).body@.len() == old(self).body@.len() + 1,
            !*is_growing ==> final(self).body@.len() == old(self).body@.len(),
            (final(self).head.x as int, final(self).head.y as int) == step(
                old(self).head,
                old(self).direction,
                *main_window_x as int,
                *main_window_y as int,
            ),
            final(self).direction == old(self).direction,
    {
        self.body.insert(0, self.head);
        let x = self.head.x as i64;
        let y = self.head.y as i64;
        let (nx, ny) = match self.direction {
            Direction::Up => (x, y - 1),
            Direction::Down => (x, y + 1),
            Direction::Right => (x + 1, y),
            Direction::Left => (x - 1, y),
        };
        self.head = Point {
            x: wrap_coordinate(nx, *main_window_x),
            y: wrap_coordinate(ny, *main_window_y),
        };
        if !*is_growing {
            self.body.pop();
        }
        proof {
            assert(self.body@ =~= moved_body(old(self).head, old(self).body@, *is_growing));
        }
    }

    /// Turns the snake to `new_direction`, unless that would reverse it
    /// straight into its own body.
    pub fn change_direction(&mut self, new_direction: Direction)
        ensures
            final(self).direction == if opposite(old(self).direction) == new_direction {
                old(self).direction
            } else {
                new_direction
            },
            final(self).head == old(self).head,
            final(self).body@ == old(self).body@,
    {
        if !self.direction.is_opposite(&new_direction) {
            self.direction = new_direction;
        }
    }

    /// Whether the head has run into a segment of the body.
    pub fn detect_body_collision(&self) -> (r: bool)
        ensures
            r == collides(self.head, self.body@),
    {
        let mut i: usize = 0;
        while i < self.body.len()
            invariant
                i <= self.body@.len(),
                forall|j: int| 0 <= j < i ==> self.body@[j] != self.head,
            decreases self.body@.len() - i,
        {
            if self.body[i] == self.head {
                return true;
            }
            i = i + 1;
        }
        false
    }

    /// Whether the head is on the food.
    pub fn eat(&self, food: &Food) -> (r: bool)
        ensures
            r == (food.position == self.head),
    {
        food.position == self.head
    }
}

} // verus!

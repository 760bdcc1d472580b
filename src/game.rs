use vstd::prelude::*;
use crate::food::respawn_food;
use crate::geometry::{Direction, Point, opposite, step};
use crate::input::{Key, get_direction_from_keypress, requested_direction};
use crate::snake::{Food, Snake, collides, moved_body};

verus! {

/// Drawn on every cell the snake occupies.
pub const FIELD_CHARACTER: char = 'a';

/// Drawn on the food's cell.
pub const FOOD_CHARACTER: char = 'b';

/// Milliseconds between ticks at the start of a game.
pub const INITIAL_DELAY_MS: u64 = 100;

/// Each meal shortens the delay by this much ...
pub const DELAY_STEP_MS: u64 = 5;

/// ... while the delay is still above this floor.
pub const DELAY_FLOOR_MS: u64 = 10;

/// Where the snake's head starts, on both axes.
pub const START_COORDINATE: i32 = 5;

/// Whether the game goes on after a tick.
#[derive(Clone, Copy, Debug, PartialEq, Eq, Structural)]
pub enum Status {
    Running,
    Ended,
}

/// A character to draw at a cell.
#[derive(Clone, Copy, Debug, PartialEq, Eq, Structural)]
pub struct Cell {
    pub position: Point,
    pub glyph: char,
}

/// A game in progress: the snake, the food, the delay between ticks, and the
/// size of the wrapping field.
#[derive(Debug)]
pub struct Game {
    pub snake: Snake,
    pub food: Food,
    pub delay_ms: u64,
    pub width: i32,
    pub height: i32,
}

/// The delay after a meal: one step shorter while above the floor.
pub open spec fn next_delay(delay: int) -> int {
    if delay > DELAY_FLOOR_MS {
        delay - DELAY_STEP_MS
    } else {
        delay
    }
}

/// The heading after a request for `requested`: a reversal is refused.
pub open spec fn turned(current: Direction, requested: Direction) -> Direction {
    if opposite(current) == requested {
        current
    } else {
        requested
    }
}

/// The cell drawn for one segment of the snake.
pub open spec fn segment_cell(p: Point) -> Cell {
    Cell { position: p, glyph: FIELD_CHARACTER }
}

/// The delay after a meal.
pub fn faster(delay: u64) -> (r: u64)
    ensures
        r == next_delay(delay as int),
{
    if delay > DELAY_FLOOR_MS {
        delay - DELAY_STEP_MS
    } else {
        delay
    }
}

impl Game {
    /// The field has room for at least one cell.
    pub open spec fn wf(&self) -> bool {
        self.width > 0 && self.height > 0
    }

    /// Whether the head is on the food, so that the coming tick is a meal.
    pub open spec fn eating(&self) -> bool {
        self.snake.head == self.food.position
    }

    /// A new game on a `width` by `height` field with the food at `food`:
    /// the snake is a lone head at (5, 5), heading down.
    pub fn new(width: i32, height: i32, food: Food) -> (r: Game)
        requires
            width > 0,
            height > 0,
        ensures
            r.wf(),
            r.width == width,
            r.height == height,
            r.snake.head == (Point { x: START_COORDINATE, y: START_COORDINATE }),
            r.snake.direction == Direction::Down,
            r.snake.body@.len() == 0,
            r.food == food,
            r.delay_ms == INITIAL_DELAY_MS,
    {
        Game {
            snake: Snake {
                head: Point { x: START_COORDINATE, y: START_COORDINATE },
                direction: Direction::Down,
                body: Vec::new(),
            },
            food,
            delay_ms: INITIAL_DELAY_MS,
            width,
            height,
        }
    }

    /// A new game with the food at a random cell of the field.
    pub fn start(width: i32, height: i32) -> (r: Game)
        requires
            width > 0,
            height > 0,
        ensures
            r.wf(),
            r.width == width,
            r.height == height,
            r.snake.head == (Point { x: START_COORDINATE, y: START_COORDINATE }),
            r.snake.direction == Direction::Down,
            r.snake.body@.len() == 0,
            0 <= r.food.position.x < width,
            0 <= r.food.position.y < height,
            r.delay_ms == INITIAL_DELAY_MS,
    {
        Game::new(width, height, respawn_food(width, height))
    }

    /// One tick with `fresh_food` standing ready: whether the snake eats is
    /// decided before it moves; it then moves, growing if it ate; a meal
    /// puts `fresh_food` on the field and quickens the game; and the game
    /// ends if the head has run into the body.
    pub fn advance(&mut self, fresh_food: Food) -> (r: Status)
        requires
            old(self).wf(),
        ensures
            final(self).wf(),
            final(self).width == old(self).width,
            final(self).height == old(self).height,
            final(self).snake.body@ == moved_body(
                old(self).snake.head,
                old(self).snake.body@,
                old(self).eating(),
            ),
            (final(self).snake.head.x as int, final(self).snake.head.y as int) == step(
                old(self).snake.head,
                old(self).snake.direction,
                old(self).width as int,
                old(self).height as int,
            ),
            final(self).snake.direction == old(self).snake.direction,
            final(self).food == if old(self).eating() {
                fresh_food
            } else {
                old(self).food
            },
            final(self).delay_ms == if old(self).eating() {
                next_delay(old(self).delay_ms as int)
            } else {
                old(self).delay_ms as int
            },
            r == if collides(final(self).snake.head, final(self).snake.body@) {
                Status::Ended
            } else {
                Status::Running
            },
    {
        let food_eaten = self.snake.eat(&self.food);
        self.snake.move_body(&food_eaten, &self.width, &self.height);
        if food_eaten {
            self.delay_ms = faster(self.delay_ms);
            self.food = fresh_food;
        }
        if self.snake.detect_body_collision() {
            Status::Ended
        } else {
            Status::Running
        }
    }

    /// One tick, with new food at a random cell of the field if the snake
    /// eats the old one.
    pub fn tick(&mut self) -> (r: Status)
        requires
            old(self).wf(),
        ensures
            final(self).wf(),
            final(self).width == old(self).width,
            final(self).height == old(self).height,
            final(self).snake.body@ == moved_body(
                old(self).snake.head,
                old(self).snake.body@,
                old(self).eating(),
            ),
            (final(self).snake.head.x as int, final(self).snake.head.y as int) == step(
                old(self).snake.head,
                old(self).snake.direction,
                old(self).width as int,
                old(self).height as int,
            ),
            final(self).snake.direction == old(self).snake.direction,
            old(self).eating() ==> 0 <= final(self).food.position.x < old(self).width
                && 0 <= final(self).food.position.y < old(self).height,
            !old(self).eating() ==> final(self).food == old(self).food,
            final(self).delay_ms == if old(self).eating() {
                next_delay(old(self).delay_ms as int)
            } else {
                old(self).delay_ms as int
            },
            r == if collides(final(self).snake.head, final(self).snake.body@) {
                Status::Ended
            } else {
                Status::Running
            },
    {
        let fresh_food = if self.snake.eat(&self.food) {
            respawn_food(self.width, self.height)
        } else {
            self.food
        };
        self.advance(fresh_food)
    }

    /// Turns the snake as a key press asks, unless that would reverse it.
    pub fn steer(&mut self, keypress: Option<Key>)
        ensures
            final(self).snake.direction == match requested_direction(keypress) {
                Some(d) => turned(old(self).snake.direction, d),
                None => old(self).snake.direction,
            },
            final(self).snake.head == old(self).snake.head,
            final(self).snake.body@ == old(self).snake.body@,
            final(self).food == old(self).food,
            final(self).delay_ms == old(self).delay_ms,
            final(self).width == old(self).width,
            final(self).height == old(self).height,
    {
        if let Some(direction) = get_direction_from_keypress(keypress) {
            self.snake.change_direction(direction);
        }
    }

    /// What to draw for the current state, in drawing order: the food, the
    /// head, then each body segment from the front.
    pub fn cells(&self) -> (r: Vec<Cell>)
        ensures
            r@ == seq![
                Cell { position: self.food.position, glyph: FOOD_CHARACTER },
                segment_cell(self.snake.head),
            ] + self.snake.body@.map_values(|p: Point| segment_cell(p)),
    {
        let mut r: Vec<Cell> = Vec::new();
        r.push(Cell { position: self.food.position, glyph: FOOD_CHARACTER });
        r.push(Cell { position: self.snake.head, glyph: FIELD_CHARACTER });
        let mut i: usize = 0;
        while i < self.snake.body.len()
            invariant
                i <= self.snake.body@.len(),
                r@ == seq![
                    Cell { position: self.food.position, glyph: FOOD_CHARACTER },
                    segment_cell(self.snake.head),
                ] + self.snake.body@.subrange(0, i as int).map_values(|p: Point| segment_cell(p)),
            decreases self.snake.body@.len() - i,
        {
            r.push(Cell { position: self.snake.body[i], glyph: FIELD_CHARACTER });
            proof {
                assert(self.snake.body@.subrange(0, i + 1) =~= self.snake.body@.subrange(
                    0,
                    i as int,
                ).push(self.snake.body@[i as int]));
            }
            i = i + 1;
            proof {
                assert(r@ =~= seq![
                    Cell { position: self.food.position, glyph: FOOD_CHARACTER },
                    segment_cell(self.snake.head),
                ] + self.snake.body@.subrange(0, i as int).map_values(|p: Point| segment_cell(p)));
            }
        }
        proof {
            assert(self.snake.body@.subrange(0, i as int) =~= self.snake.body@);
        }
        r
    }
}

} // verus!

use vstd::prelude::*;
use crate::geometry::Direction;

verus! {

/// A key press, as the terminal reports it.
#[derive(Clone, Copy, Debug, PartialEq, Eq, Structural)]
pub enum Key {
    Up,
    Down,
    Right,
    Left,
    Character(char),
    Other,
}

/// The heading a key asks for: the arrow keys, or `k`, `j`, `l`, `h` in the
/// manner of vi. Any other key, or none, asks for no change.
pub open spec fn requested_direction(key: Option<Key>) -> Option<Direction> {
    match key {
        Some(Key::Up) | Some(Key::Character('k')) => Some(Direction::Up),
        Some(Key::Down) | Some(Key::Character('j')) => Some(Direction::Down),
        Some(Key::Right) | Some(Key::Character('l')) => Some(Direction::Right),
        Some(Key::Left) | Some(Key::Character('h')) => Some(Direction::Left),
        _ => None,
    }
}

/// The heading that a key press asks for, if any.
pub fn get_direction_from_keypress(keypress: Option<Key>) -> (r: Option<Direction>)
    ensures
        r == requested_direction(keypress),
{
    match keypress {
        Some(keypress) => match keypress {
            Key::Up | Key::Character('k') => Some(Direction::Up),
            Key::Down | Key::Character('j') => Some(Direction::Down),
            Key::Right | Key::Character('l') => Some(Direction::Right),
            Key::Left | Key::Character('h') => Some(Direction::Left),
            _ => None,
        },
        None => None,
    }
}

} // verus!

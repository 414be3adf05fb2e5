use vstd::prelude::*;
use crate::grid::{lemma_opposite_involution, Direction};

verus! {

/// A key of the keyboard, as far as the game tells keys apart: the four
/// arrows, the letters W, A, S and D, and everything else.
#[derive(Clone, Copy, Debug, PartialEq, Eq, Structural)]
pub enum Key {
    Right,
    Left,
    Down,
    Up,
    W,
    A,
    S,
    D,
    Other,
}

/// The direction a key asks for, if it asks for one.
pub open spec fn key_direction(key: Key) -> Option<Direction> {
    match key {
        Key::Right | Key::D => Some(Direction::Right),
        Key::Left | Key::A => Some(Direction::Left),
        Key::Down | Key::S => Some(Direction::Down),
        Key::Up | Key::W => Some(Direction::Up),
        Key::Other => None,
    }
}

/// The direction the snake has after `requested` was asked for while it
/// travelled in `current`: the request is taken unless it would turn the
/// snake right round.
pub open spec fn turned(current: Direction, requested: Direction) -> Direction {
    if current == requested.opposite() {
        current
    } else {
        requested
    }
}

/// The direction the snake has after one frame's keyboard input.
pub open spec fn steered(current: Direction, key: Option<Key>) -> Direction {
    match key {
        Some(k) => match key_direction(k) {
            Some(requested) => turned(current, requested),
            None => current,
        },
        None => current,
    }
}

/// Maps a key to the direction it asks for: the arrows and W, A, S, D to
/// theirs, any other key to none.
pub fn get_direction(key: Key) -> (direction: Option<Direction>)
    ensures
        direction == key_direction(key),
{
    match key {
        Key::Right => Some(Direction::Right),
        Key::Left => Some(Direction::Left),
        Key::Down => Some(Direction::Down),
        Key::Up => Some(Direction::Up),
        Key::W => Some(Direction::Up),
        Key::A => Some(Direction::Left),
        Key::S => Some(Direction::Down),
        Key::D => Some(Direction::Right),
        Key::Other => None,
    }
}

/// A key that asks for the opposite of the current direction changes
/// nothing; a key that asks for any other direction makes it the new one.
pub proof fn lemma_steer_rejects_only_reversal(current: Direction, key: Key, requested: Direction)
    requires
        key_direction(key) == Some(requested),
    ensures
        requested == current.opposite() ==> steered(current, Some(key)) == current,
        requested != current.opposite() ==> steered(current, Some(key)) == requested,
{
    lemma_opposite_involution(current);
    lemma_opposite_involution(requested);
}

/// A key that asks for no direction, and a frame without a key, leave the
/// direction as it is.
pub proof fn lemma_steer_ignores_other_keys(current: Direction, key: Option<Key>)
    requires
        key is None || key_direction(key->Some_0) is None,
    ensures
        steered(current, key) == current,
{
}

} // verus!

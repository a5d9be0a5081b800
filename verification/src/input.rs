//! Keys and what they do to the snake.

use vstd::prelude::*;
use crate::snake::{turned, Direction, Snake};

verus! {

/// How long the game waits for a key before the next tick, in milliseconds.
pub const KEY_WAIT: u64 = 500;

/// A key of the keyboard, as far as the game tells keys apart.
#[derive(PartialEq, Eq, Structural, Clone, Copy, Debug)]
pub enum Key {
    Enter,
    Left,
    Right,
    Up,
    Down,
    Esc,
    /// A key that types a character.
    Char(char),
    /// Any other key.
    Other,
}

/// The direction that `key` asks for: the arrow keys, and `a`, `d`, `w`, `s`
/// in their place. No other key asks for a direction.
pub open spec fn key_direction(key: Key) -> Option<Direction> {
    match key {
        Key::Left | Key::Char('a') => Some(Direction::Left),
        Key::Right | Key::Char('d') => Some(Direction::Right),
        Key::Up | Key::Char('w') => Some(Direction::Up),
        Key::Down | Key::Char('s') => Some(Direction::Down),
        _ => None,
    }
}

/// Whether the game knows what to do on `key`. It does not on `Enter` and
/// `Esc`: they are kept for actions that the game does not have yet.
pub open spec fn spec_is_bound(key: Key) -> bool {
    key != Key::Enter && key != Key::Esc
}

/// Whether the game knows what to do on `key`, so that `handle_input` may
/// be called.
#[verifier::when_used_as_spec(spec_is_bound)]
pub fn is_bound(key: Key) -> (bound: bool)
    ensures
        bound == spec_is_bound(key),
{
    match key {
        Key::Enter | Key::Esc => false,
        _ => true,
    }
}

/// Turns the snake as `key` asks. A key that asks for no direction leaves the
/// snake as it is.
pub fn handle_input(snake: &mut Snake, key: Key)
    requires
        is_bound(key),
    ensures
        final(snake).body == old(snake).body,
        final(snake).dir == match key_direction(key) {
            Some(dir) => turned(old(snake).dir, dir),
            None => old(snake).dir,
        },
{
    match key {
        Key::Left | Key::Char('a') => snake.move_to(Direction::Left),
        Key::Right | Key::Char('d') => snake.move_to(Direction::Right),
        Key::Up | Key::Char('w') => snake.move_to(Direction::Up),
        Key::Down | Key::Char('s') => snake.move_to(Direction::Down),
        _ => {},
    }
}

} // verus!

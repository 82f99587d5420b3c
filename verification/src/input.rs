//! Turning key presses into a direction change, with the no-reversal
//! rule: the snake never turns straight back into its own neck.

use vstd::prelude::*;

use crate::game::Direction;
use crate::game::Snake;
use crate::game::opposite;

verus! {

/// Which of the four directional keys are held down during one poll.
#[derive(Clone, Copy, Debug)]
pub struct KeysDown {
    pub up: bool,
    pub down: bool,
    pub left: bool,
    pub right: bool,
}

/// A poll with exactly the key for `d` held down.
pub open spec fn only_key(d: Direction) -> KeysDown {
    KeysDown {
        up: d == Direction::Up,
        down: d == Direction::Down,
        left: d == Direction::Left,
        right: d == Direction::Right,
    }
}

/// The direction after one poll: the first held key in priority order
/// Up, Down, Left, Right wins, except that a key opposite to the
/// current direction is ignored.
pub open spec fn next_direction(current: Direction, keys: KeysDown) -> Direction {
    if keys.up && current != Direction::Down {
        Direction::Up
    } else if keys.down && current != Direction::Up {
        Direction::Down
    } else if keys.left && current != Direction::Right {
        Direction::Left
    } else if keys.right && current != Direction::Left {
        Direction::Right
    } else {
        current
    }
}

/// Apply one poll of the directional keys to the snake's travel
/// direction; nothing else about the snake changes.
pub fn handle_input(snake: &mut Snake, keys: KeysDown)
    ensures
        final(snake).direction == next_direction(old(snake).direction, keys),
        final(snake).head == old(snake).head,
        final(snake).body@ == old(snake).body@,
        final(snake).count == old(snake).count,
{
    if keys.up && !(snake.direction == Direction::Down) {
        snake.direction = Direction::Up;
    } else if keys.down && !(snake.direction == Direction::Up) {
        snake.direction = Direction::Down;
    } else if keys.left && !(snake.direction == Direction::Right) {
        snake.direction = Direction::Left;
    } else if keys.right && !(snake.direction == Direction::Left) {
        snake.direction = Direction::Right;
    }
}

/// Pressing exactly the key for a direction `d` leaves the current
/// direction `current` unchanged when `d` is its direct opposite, and
/// switches to `d` in every other case.
pub proof fn lemma_no_reversal(current: Direction, d: Direction)
    ensures
        next_direction(current, only_key(d)) == (
            if d == opposite(current) {
                current
            } else {
                d
            }
        ),
{
}

} // verus!

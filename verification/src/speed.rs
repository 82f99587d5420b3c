//! Difficulty scaling: the tick interval shrinks in steps as the eaten
//! count passes fixed thresholds. Intervals are held in milliseconds.

use vstd::prelude::*;

use crate::game::Snake;

verus! {

/// Tick interval at the start of a game, in milliseconds.
pub const INITIAL_INTERVAL_MS: i32 = 150;

/// The tick interval, in milliseconds, that the thresholds assign to an
/// eaten count: 150 up to 10 food, then 100, 75, 50, and 30 above 100.
pub open spec fn interval_for(count: int) -> int {
    if count > 100 {
        30
    } else if count > 60 {
        50
    } else if count > 30 {
        75
    } else if count > 10 {
        100
    } else {
        150
    }
}

/// Rescale the tick interval after a tick: once the eaten count has
/// passed the first threshold, `speed` becomes the interval the
/// thresholds assign; below it, `speed` is left as it was.
pub fn increase_speed(snake: &Snake, speed: &mut i32)
    ensures
        *final(speed) == (
            if snake.count > 10 {
                interval_for(snake.count as int)
            } else {
                *old(speed) as int
            }
        ),
{
    if snake.count > 100 {
        *speed = 30;
    } else if snake.count > 60 {
        *speed = 50;
    } else if snake.count > 30 {
        *speed = 75;
    } else if snake.count > 10 {
        *speed = 100;
    }
}

/// The tick interval never grows as the eaten count grows.
pub proof fn lemma_interval_monotonic(c1: int, c2: int)
    requires
        c1 <= c2,
    ensures
        interval_for(c2) <= interval_for(c1),
{
}

/// One application of the rescaling rule lands exactly on the interval
/// the thresholds assign, whenever the interval held before was itself
/// assigned at some earlier (no larger) count — in particular whenever
/// play started from the initial interval and the count never shrank.
pub proof fn lemma_speed_tracks_count(c0: int, c: int)
    requires
        c0 <= c,
    ensures
        (if c > 10 {
            interval_for(c)
        } else {
            interval_for(c0)
        }) == interval_for(c),
{
}

} // verus!

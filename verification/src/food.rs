//! Food placement: a uniformly random grid-aligned cell strictly inside
//! the play field, one cell clear of the walls.

use vstd::prelude::*;

use crate::game::Point;
use crate::game::SQUARE;

verus! {

/// Relies on `rand::random_range`: a draw from the thread-local
/// generator, uniform over the half-open range `lo..hi`. It panics only
/// on an empty range, which the precondition rules out.
#[verifier::external_body]
fn random_in_range(lo: i32, hi: i32) -> (r: i32)
    requires
        lo < hi,
    ensures
        lo <= r < hi,
{
    rand::random_range(lo..hi)
}

/// A random grid-aligned food cell for the play field bounded by `min`
/// and `max`: at least one cell clear of the left, right and top walls
/// and two cells clear of the bottom wall, whatever the generator
/// returns. Both axes are drawn independently; cells under the snake's
/// body are not excluded.
pub fn gen_food(min: Point, max: Point) -> (p: Point)
    requires
        0 <= min.x,
        0 <= min.y,
        min.x % SQUARE == 0,
        min.y % SQUARE == 0,
        max.x % SQUARE == 0,
        max.y % SQUARE == 0,
        min.x + 2 * SQUARE <= max.x,
        min.y + 3 * SQUARE <= max.y,
    ensures
        p.x % SQUARE == 0,
        p.y % SQUARE == 0,
        min.x + SQUARE <= p.x <= max.x - SQUARE,
        min.y + SQUARE <= p.y <= max.y - 2 * SQUARE,
{
    let min_x: i32 = min.x / SQUARE + 1;
    let max_x: i32 = max.x / SQUARE;
    let min_y: i32 = min.y / SQUARE + 1;
    let max_y: i32 = max.y / SQUARE - 1;

    proof {
        assert(min.x == SQUARE * (min.x as int / SQUARE as int)) by (nonlinear_arith)
            requires
                min.x >= 0,
                min.x % SQUARE == 0,
                SQUARE == 10,
        ;
        assert(max.x == SQUARE * (max.x as int / SQUARE as int)) by (nonlinear_arith)
            requires
                max.x >= 0,
                max.x % SQUARE == 0,
                SQUARE == 10,
        ;
        assert(min.y == SQUARE * (min.y as int / SQUARE as int)) by (nonlinear_arith)
            requires
                min.y >= 0,
                min.y % SQUARE == 0,
                SQUARE == 10,
        ;
        assert(max.y == SQUARE * (max.y as int / SQUARE as int)) by (nonlinear_arith)
            requires
                max.y >= 0,
                max.y % SQUARE == 0,
                SQUARE == 10,
        ;
    }

    let rx = random_in_range(min_x, max_x);
    let ry = random_in_range(min_y, max_y);

    Point { x: rx * SQUARE, y: ry * SQUARE }
}

} // verus!

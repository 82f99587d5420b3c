//! The whole game as a state machine: Playing and GameOver, advanced
//! once per frame by the host loop. Each tick reads one poll of the
//! keys, moves the snake, settles eating, checks for collision and
//! rescales the tick interval.

use vstd::prelude::*;

use crate::food::gen_food;
use crate::game::Direction;
use crate::game::MAP_HEIGHT;
use crate::game::MAP_WIDTH;
use crate::game::Point;
use crate::game::SQUARE;
use crate::game::Snake;
use crate::game::WINDOW_HEIGHT;
use crate::game::hits_body;
use crate::game::hits_wall;
use crate::game::step_x;
use crate::game::step_y;
use crate::input::KeysDown;
use crate::input::handle_input;
use crate::input::next_direction;
use crate::speed::INITIAL_INTERVAL_MS;
use crate::speed::increase_speed;
use crate::speed::interval_for;

verus! {

/// Left wall of the play field, in pixels.
pub const MIN_X: i32 = SQUARE;

/// Top wall of the play field, in pixels (below the score strip).
pub const MIN_Y: i32 = WINDOW_HEIGHT - MAP_HEIGHT;

/// Right wall of the play field, in pixels.
pub const MAX_X: i32 = MAP_WIDTH - SQUARE;

/// Bottom wall of the play field, in pixels.
pub const MAX_Y: i32 = WINDOW_HEIGHT - SQUARE;

/// The corner of the play field nearest the origin.
pub open spec fn field_min() -> Point {
    Point { x: MIN_X, y: MIN_Y }
}

/// The corner of the play field farthest from the origin.
pub open spec fn field_max() -> Point {
    Point { x: MAX_X, y: MAX_Y }
}

/// Where food may lie: on the grid, strictly inside the play field,
/// at least one cell clear of every wall.
pub open spec fn food_in_field(food: Point) -> bool {
    &&& food.x % SQUARE == 0
    &&& food.y % SQUARE == 0
    &&& MIN_X + SQUARE <= food.x <= MAX_X - SQUARE
    &&& MIN_Y + SQUARE <= food.y <= MAX_Y - 2 * SQUARE
}

/// The cell where play begins.
pub open spec fn start_head() -> Point {
    Point { x: 400, y: 300 }
}

/// Everything one game carries between frames: the snake, the current
/// food cell, the tick interval in milliseconds, and whether the game
/// has ended.
#[derive(Debug)]
pub struct GameState {
    pub snake: Snake,
    pub food: Point,
    pub speed_ms: i32,
    pub game_over: bool,
}

/// How one tick relates the state before (`pre`) to the state after
/// (`post`), given one poll `keys` of the directional keys: the
/// direction turns by the no-reversal rule, the head advances one cell,
/// the vacated cell joins the body trail; if the head lands on the food
/// the count grows by one, the trail is kept whole and fresh food is
/// placed in the field, otherwise the trail is cut back to `count`
/// cells; the game ends exactly on a wall or body collision; and the
/// tick interval follows the difficulty thresholds.
pub open spec fn tick_rel(pre: GameState, post: GameState, keys: KeysDown) -> bool {
    let d = next_direction(pre.snake.direction, keys);
    let hx = pre.snake.head.x + step_x(d) * SQUARE;
    let hy = pre.snake.head.y + step_y(d) * SQUARE;
    let grown = seq![pre.snake.head] + pre.snake.body@;
    let ate = hx == pre.food.x && hy == pre.food.y;
    &&& post.snake.direction == d
    &&& post.snake.head.x == hx
    &&& post.snake.head.y == hy
    &&& (if ate {
        &&& post.snake.count == pre.snake.count + 1
        &&& post.snake.body@ == grown
        &&& food_in_field(post.food)
    } else {
        &&& post.snake.count == pre.snake.count
        &&& post.snake.body@ == (
            if pre.snake.count <= grown.len() {
                grown.subrange(0, pre.snake.count as int)
            } else {
                grown
            }
        )
        &&& post.food == pre.food
    })
    &&& post.game_over == (hits_wall(post.snake.head, field_min(), field_max())
        || hits_body(post.snake.head, post.snake.body@))
    &&& post.speed_ms == (
        if post.snake.count > 10 {
            interval_for(post.snake.count as int)
        } else {
            pre.speed_ms as int
        }
    )
}

impl GameState {
    /// What every reachable state satisfies: a non-negative eaten
    /// count, food inside the field, and, while play goes on, a head
    /// strictly inside the walls.
    pub open spec fn wf(self) -> bool {
        &&& 0 <= self.snake.count
        &&& food_in_field(self.food)
        &&& (!self.game_over ==> MIN_X < self.snake.head.x < MAX_X
            && MIN_Y < self.snake.head.y < MAX_Y)
    }

    /// A fresh game: the snake at the starting cell heading left with
    /// nothing eaten, food somewhere in the field, the initial tick
    /// interval, and play under way.
    pub fn new() -> (g: GameState)
        ensures
            g.wf(),
            !g.game_over,
            g.snake.head == start_head(),
            g.snake.body@ == Seq::<Point>::empty(),
            g.snake.direction == Direction::Left,
            g.snake.count == 0,
            g.speed_ms == INITIAL_INTERVAL_MS,
            food_in_field(g.food),
    {
        let snake = Snake::new(Point { x: 400, y: 300 });
        let food = gen_food(Point { x: MIN_X, y: MIN_Y }, Point { x: MAX_X, y: MAX_Y });
        GameState { snake, food, speed_ms: INITIAL_INTERVAL_MS, game_over: false }
    }

    /// Run one full tick of play: turn, move, settle eating, detect
    /// collision, rescale the interval.
    pub fn tick(&mut self, keys: KeysDown)
        requires
            old(self).wf(),
            !old(self).game_over,
            old(self).snake.count < i32::MAX,
        ensures
            final(self).wf(),
            tick_rel(*old(self), *final(self), keys),
    {
        let min_point = Point { x: MIN_X, y: MIN_Y };
        let max_point = Point { x: MAX_X, y: MAX_Y };
        handle_input(&mut self.snake, keys);
        self.snake.move_to();
        if self.snake.has_eaten_food(&self.food) {
            self.food = gen_food(min_point, max_point);
        }
        self.game_over = self.snake.is_collision(min_point, max_point);
        increase_speed(&self.snake, &mut self.speed_ms);
    }

    /// Throw the finished game away and begin afresh, exactly as
    /// `GameState::new` does.
    pub fn restart(&mut self)
        ensures
            final(self).wf(),
            !final(self).game_over,
            final(self).snake.head == start_head(),
            final(self).snake.body@ == Seq::<Point>::empty(),
            final(self).snake.direction == Direction::Left,
            final(self).snake.count == 0,
            final(self).speed_ms == INITIAL_INTERVAL_MS,
            food_in_field(final(self).food),
    {
        *self = GameState::new();
    }

    /// The decisions of one render frame. While play goes on, a tick
    /// runs exactly when the interval has elapsed (`tick_due`); after a
    /// collision the game waits, and the restart key begins a fresh
    /// game. In every other case the state is left untouched.
    pub fn frame(&mut self, keys: KeysDown, restart_down: bool, tick_due: bool)
        requires
            old(self).wf(),
            old(self).snake.count < i32::MAX,
        ensures
            final(self).wf(),
            old(self).game_over && restart_down ==> !final(self).game_over
                && final(self).snake.head == start_head()
                && final(self).snake.body@ == Seq::<Point>::empty()
                && final(self).snake.direction == Direction::Left
                && final(self).snake.count == 0
                && final(self).speed_ms == INITIAL_INTERVAL_MS
                && food_in_field(final(self).food),
            old(self).game_over && !restart_down ==> *final(self) == *old(self),
            !old(self).game_over && tick_due ==> tick_rel(*old(self), *final(self), keys),
            !old(self).game_over && !tick_due ==> *final(self) == *old(self),
    {
        if self.game_over {
            if restart_down {
                self.restart();
            }
        } else {
            if tick_due {
                self.tick(keys);
            }
        }
    }

    /// The score the host shows: ten points for each food eaten.
    pub fn score(&self) -> (r: i32)
        requires
            0 <= self.snake.count,
            10 * self.snake.count <= i32::MAX,
        ensures
            r == 10 * self.snake.count,
    {
        self.snake.count * 10
    }
}

} // verus!

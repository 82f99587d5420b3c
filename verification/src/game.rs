//! The snake itself: its position on the grid, its body trail, movement,
//! growth on eating, and collision detection.

use vstd::prelude::*;

verus! {

/// Side of one grid cell, in pixels; the snake moves one cell per tick.
pub const SQUARE: i32 = 10;

/// Width of the window in pixels.
pub const WINDOW_WIDTH: i32 = 80 * SQUARE;

/// Height of the window in pixels (the play field plus a score strip).
pub const WINDOW_HEIGHT: i32 = 62 * SQUARE;

/// Width of the play field in pixels.
pub const MAP_WIDTH: i32 = 80 * SQUARE;

/// Height of the play field in pixels.
pub const MAP_HEIGHT: i32 = 60 * SQUARE;

/// A grid-aligned position, in pixels.
#[derive(Clone, Copy, PartialEq, Eq, Structural, Debug)]
pub struct Point {
    pub x: i32,
    pub y: i32,
}

/// The four directions the snake can travel in.
#[derive(Clone, Copy, PartialEq, Eq, Structural, Debug)]
pub enum Direction {
    Up,
    Down,
    Left,
    Right,
}

/// The direction directly opposite to `d`; the snake may never reverse
/// into it in one step.
pub open spec fn opposite(d: Direction) -> Direction {
    match d {
        Direction::Up => Direction::Down,
        Direction::Down => Direction::Up,
        Direction::Left => Direction::Right,
        Direction::Right => Direction::Left,
    }
}

/// Horizontal component of the unit step for direction `d`.
pub open spec fn step_x(d: Direction) -> int {
    match d {
        Direction::Up => 0,
        Direction::Down => 0,
        Direction::Left => -1,
        Direction::Right => 1,
    }
}

/// Vertical component of the unit step for direction `d` (the y axis
/// grows downwards).
pub open spec fn step_y(d: Direction) -> int {
    match d {
        Direction::Up => -1,
        Direction::Down => 1,
        Direction::Left => 0,
        Direction::Right => 0,
    }
}

/// The unit step vector for a direction, one grid cell long.
pub fn get_step(dir: &Direction) -> (p: Point)
    ensures
        p.x == step_x(*dir),
        p.y == step_y(*dir),
{
    match dir {
        Direction::Up => Point { x: 0, y: -1 },
        Direction::Down => Point { x: 0, y: 1 },
        Direction::Left => Point { x: -1, y: 0 },
        Direction::Right => Point { x: 1, y: 0 },
    }
}

/// True when `head` touches or lies beyond a wall of the play field
/// bounded inclusively by `min_point` and `max_point`.
pub open spec fn hits_wall(head: Point, min_point: Point, max_point: Point) -> bool {
    ||| head.x <= min_point.x
    ||| head.x >= max_point.x
    ||| head.y <= min_point.y
    ||| head.y >= max_point.y
}

/// True when `head` lies on some cell of the body trail.
pub open spec fn hits_body(head: Point, body: Seq<Point>) -> bool {
    exists|i: int| 0 <= i < body.len() && body[i] == head
}

/// The snake: a head cell, the trail of body cells behind it (most
/// recently vacated cell first), the current travel direction, and how
/// many pieces of food have been eaten.
#[derive(Debug)]
pub struct Snake {
    pub head: Point,
    pub body: Vec<Point>,
    pub direction: Direction,
    pub count: i32,
}

impl Snake {
    /// A fresh snake at `point`, heading left, with nothing eaten and no
    /// body trail yet.
    pub fn new(point: Point) -> (s: Snake)
        ensures
            s.head == point,
            s.body@ == Seq::<Point>::empty(),
            s.direction == Direction::Left,
            s.count == 0,
    {
        let body: Vec<Point> = Vec::new();
        Snake { head: point, body, direction: Direction::Left, count: 0 }
    }

    /// Advance one tick: the cell the head vacates becomes the front of
    /// the body trail, and the head moves one grid cell in the current
    /// travel direction.
    pub fn move_to(&mut self)
        requires
            i32::MIN + SQUARE <= old(self).head.x <= i32::MAX - SQUARE,
            i32::MIN + SQUARE <= old(self).head.y <= i32::MAX - SQUARE,
        ensures
            final(self).head.x == old(self).head.x + step_x(old(self).direction) * SQUARE,
            final(self).head.y == old(self).head.y + step_y(old(self).direction) * SQUARE,
            final(self).body@ == seq![old(self).head] + old(self).body@,
            final(self).direction == old(self).direction,
            final(self).count == old(self).count,
    {
        let step = get_step(&self.direction);
        self.body.insert(0, Point { x: self.head.x, y: self.head.y });
        self.head = Point {
            x: self.head.x + step.x * SQUARE,
            y: self.head.y + step.y * SQUARE,
        };
    }

    /// Growth step of a tick. When the head sits on `food` the eaten
    /// count goes up by one and the body trail is left whole, so the
    /// snake keeps the cell it just gained. Otherwise the trail is cut
    /// back to `count` cells, dropping only its hindmost entries.
    pub fn has_eaten_food(&mut self, food: &Point) -> (r: bool)
        requires
            0 <= old(self).count < i32::MAX,
        ensures
            r == (old(self).head == *food),
            final(self).head == old(self).head,
            final(self).direction == old(self).direction,
            r ==> final(self).count == old(self).count + 1
                && final(self).body@ == old(self).body@,
            !r ==> final(self).count == old(self).count
                && final(self).body@ == (
                    if old(self).count <= old(self).body@.len() {
                        old(self).body@.subrange(0, old(self).count as int)
                    } else {
                        old(self).body@
                    }
                ),
    {
        if self.head == *food {
            self.count = self.count + 1;
            return true;
        } else {
            self.body.truncate(self.count as usize);
        }
        false
    }

    /// True exactly when the head touches or crosses a wall of the play
    /// field, or lies on a cell of the body trail.
    pub fn is_collision(&self, min_point: Point, max_point: Point) -> (r: bool)
        ensures
            r == (hits_wall(self.head, min_point, max_point) || hits_body(self.head, self.body@)),
    {
        if self.head.x <= min_point.x || self.head.x >= max_point.x {
            return true;
        }

        if self.head.y <= min_point.y || self.head.y >= max_point.y {
            return true;
        }

        let mut i: usize = 0;
        while i < self.body.len()
            invariant
                0 <= i <= self.body@.len(),
                forall|j: int| 0 <= j < i ==> self.body@[j] != self.head,
            decreases self.body@.len() - i,
        {
            if self.head == self.body[i] {
                return true;
            }
            i = i + 1;
        }

        false
    }
}

} // verus!

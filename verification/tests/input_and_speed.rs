use snake::Direction;
use snake::KeysDown;
use snake::Point;
use snake::Snake;
use snake::handle_input;
use snake::increase_speed;

fn no_keys() -> KeysDown {
    KeysDown { up: false, down: false, left: false, right: false }
}

fn snake_heading(d: Direction) -> Snake {
    let mut s = Snake::new(Point { x: 400, y: 300 });
    s.direction = d;
    s
}

#[test]
fn reversal_is_ignored() {
    // Heading Left, pressing Right must leave the direction unchanged.
    let mut s = snake_heading(Direction::Left);
    handle_input(&mut s, KeysDown { right: true, ..no_keys() });
    assert_eq!(s.direction, Direction::Left);

    let mut s = snake_heading(Direction::Right);
    handle_input(&mut s, KeysDown { left: true, ..no_keys() });
    assert_eq!(s.direction, Direction::Right);

    let mut s = snake_heading(Direction::Up);
    handle_input(&mut s, KeysDown { down: true, ..no_keys() });
    assert_eq!(s.direction, Direction::Up);

    let mut s = snake_heading(Direction::Down);
    handle_input(&mut s, KeysDown { up: true, ..no_keys() });
    assert_eq!(s.direction, Direction::Down);
}

#[test]
fn non_opposite_key_turns() {
    let mut s = snake_heading(Direction::Left);
    handle_input(&mut s, KeysDown { up: true, ..no_keys() });
    assert_eq!(s.direction, Direction::Up);

    let mut s = snake_heading(Direction::Left);
    handle_input(&mut s, KeysDown { down: true, ..no_keys() });
    assert_eq!(s.direction, Direction::Down);

    let mut s = snake_heading(Direction::Up);
    handle_input(&mut s, KeysDown { right: true, ..no_keys() });
    assert_eq!(s.direction, Direction::Right);
}

#[test]
fn no_keys_keeps_direction() {
    let mut s = snake_heading(Direction::Down);
    handle_input(&mut s, no_keys());
    assert_eq!(s.direction, Direction::Down);
}

#[test]
fn first_key_in_priority_order_wins() {
    // Up beats Down, Left and Right when all are held.
    let mut s = snake_heading(Direction::Left);
    handle_input(&mut s, KeysDown { up: true, down: true, left: true, right: true });
    assert_eq!(s.direction, Direction::Up);

    // Heading Down, Up is ignored, so Left wins next.
    let mut s = snake_heading(Direction::Down);
    handle_input(&mut s, KeysDown { up: true, down: false, left: true, right: true });
    assert_eq!(s.direction, Direction::Left);
}

#[test]
fn input_changes_nothing_but_direction() {
    let mut s = snake_heading(Direction::Left);
    s.body = vec![Point { x: 410, y: 300 }];
    s.count = 1;
    handle_input(&mut s, KeysDown { up: true, ..no_keys() });
    assert_eq!(s.head, Point { x: 400, y: 300 });
    assert_eq!(s.body, vec![Point { x: 410, y: 300 }]);
    assert_eq!(s.count, 1);
}

#[test]
fn speed_matches_thresholds_exactly() {
    for (count, expected) in [(0, 150), (10, 150), (11, 100), (30, 100), (31, 75), (60, 75), (61, 50), (100, 50), (101, 30)] {
        let mut s = Snake::new(Point { x: 400, y: 300 });
        s.count = count;
        let mut speed: i32 = 150;
        increase_speed(&s, &mut speed);
        assert_eq!(speed, expected, "count {}", count);
    }
}

#[test]
fn speed_below_first_threshold_is_untouched() {
    let mut s = Snake::new(Point { x: 400, y: 300 });
    s.count = 7;
    let mut speed: i32 = 99;
    increase_speed(&s, &mut speed);
    assert_eq!(speed, 99);
}

#[test]
fn speed_never_increases_with_count() {
    let mut last: i32 = 150;
    for count in 0..200 {
        let mut s = Snake::new(Point { x: 400, y: 300 });
        s.count = count;
        let mut speed: i32 = 150;
        increase_speed(&s, &mut speed);
        assert!(speed <= last, "count {}: {} > {}", count, speed, last);
        last = speed;
    }
}

use pong::constants::{PLAYER_SPEED, RACKET_HEIGHT, RACKET_HEIGHT_HALF, UNITS_PER_PIXEL};
use pong::geometry::Point2;
use pong::racket::{clamp, move_racket, steer_racket, Direction};

const PX: i64 = UNITS_PER_PIXEL;

fn clamped(value: i64, low: i64, high: i64) -> i64 {
    let mut v = value;
    clamp(&mut v, low, high);
    v
}

#[test]
fn clamp_below_gives_low() {
    assert_eq!(clamped(-5, 0, 10), 0);
    assert_eq!(clamped(i64::MIN, -3, 3), -3);
}

#[test]
fn clamp_above_gives_high() {
    assert_eq!(clamped(11, 0, 10), 10);
    assert_eq!(clamped(i64::MAX, -3, 3), 3);
}

#[test]
fn clamp_inside_keeps_value() {
    assert_eq!(clamped(0, 0, 10), 0);
    assert_eq!(clamped(10, 0, 10), 10);
    assert_eq!(clamped(4, 0, 10), 4);
    assert_eq!(clamped(7, 7, 7), 7);
}

#[test]
fn clamp_is_idempotent_with_ordered_bounds() {
    for &(low, high) in &[(0i64, 10i64), (-20, -10), (5, 5), (i64::MIN, i64::MAX)] {
        for &value in &[i64::MIN, -21, -20, -15, -10, -1, 0, 3, 5, 10, 11, i64::MAX] {
            let once = clamped(value, low, high);
            assert_eq!(clamped(once, low, high), once);
            assert!(low <= once && once <= high);
        }
    }
}

#[test]
fn clamp_with_crossed_bounds_tests_low_first() {
    // Below `low` the lower bound is returned although it lies above `high`.
    assert_eq!(clamped(0, 10, 5), 10);
    assert_eq!(clamped(7, 10, 5), 10);
    assert_eq!(clamped(12, 10, 5), 5);
    // With crossed bounds a second clamp moves the value again.
    assert_eq!(clamped(clamped(0, 10, 5), 10, 5), 5);
}

#[test]
fn racket_moves_up_by_speed_times_time() {
    let mut pos = Point2::new(10 * PX, 300 * PX);
    // 0.1 s at 600 px/s is 60 px.
    move_racket(&mut pos, true, Direction::Up, 100_000, 600 * PX);
    assert_eq!(pos, Point2::new(10 * PX, 240 * PX));
}

#[test]
fn racket_moves_down_by_speed_times_time() {
    let mut pos = Point2::new(10 * PX, 300 * PX);
    move_racket(&mut pos, true, Direction::Down, 16_667, 600 * PX);
    assert_eq!(pos.y, 300 * PX + PLAYER_SPEED * 16_667);
    assert_eq!(pos.y, 310_000_200);
    assert_eq!(pos.x, 10 * PX);
}

#[test]
fn racket_without_key_stays_but_is_clamped() {
    let mut pos = Point2::new(10 * PX, 300 * PX);
    move_racket(&mut pos, false, Direction::Up, 100_000, 600 * PX);
    assert_eq!(pos, Point2::new(10 * PX, 300 * PX));

    let mut high = Point2::new(10 * PX, 3 * PX);
    move_racket(&mut high, false, Direction::Down, 100_000, 600 * PX);
    assert_eq!(high.y, RACKET_HEIGHT_HALF);

    let mut low = Point2::new(10 * PX, 900 * PX);
    move_racket(&mut low, false, Direction::Up, 0, 600 * PX);
    assert_eq!(low.y, 600 * PX - RACKET_HEIGHT_HALF);
}

#[test]
fn racket_stops_at_upper_edge() {
    let mut pos = Point2::new(10 * PX, 60 * PX);
    move_racket(&mut pos, true, Direction::Up, 100_000, 600 * PX);
    assert_eq!(pos.y, 50 * PX);
}

#[test]
fn racket_stops_at_lower_edge() {
    let mut pos = Point2::new(10 * PX, 540 * PX);
    move_racket(&mut pos, true, Direction::Down, 100_000, 600 * PX);
    assert_eq!(pos.y, 550 * PX);
}

#[test]
fn racket_stays_on_field_for_every_key_combination() {
    let screen_h = 600 * PX;
    let starts = [i64::MIN, -PX, 0, 49 * PX, 50 * PX, 300 * PX, 550 * PX, 551 * PX, i64::MAX];
    let times = [0u32, 1, 16_667, 1_000_000, u32::MAX];
    for &start in &starts {
        for &dt in &times {
            for &(up, down) in &[(false, false), (true, false), (false, true), (true, true)] {
                let mut pos = Point2::new(790 * PX, start);
                steer_racket(&mut pos, up, down, dt, screen_h);
                assert!(RACKET_HEIGHT_HALF <= pos.y);
                assert!(pos.y <= screen_h - RACKET_HEIGHT_HALF);
                assert_eq!(pos.x, 790 * PX);
            }
        }
    }
}

#[test]
fn racket_target_beyond_machine_range_is_clamped() {
    let mut top = Point2::new(0, i64::MIN);
    move_racket(&mut top, true, Direction::Up, u32::MAX, 600 * PX);
    assert_eq!(top.y, 50 * PX);

    let mut bottom = Point2::new(0, i64::MAX);
    move_racket(&mut bottom, true, Direction::Down, u32::MAX, 600 * PX);
    assert_eq!(bottom.y, 550 * PX);

    let mut huge = Point2::new(0, i64::MAX - 5);
    move_racket(&mut huge, true, Direction::Down, 1, i64::MAX);
    assert_eq!(huge.y, i64::MAX - RACKET_HEIGHT_HALF);
}

#[test]
fn opposite_keys_cancel_in_mid_field() {
    let mut pos = Point2::new(10 * PX, 300 * PX);
    steer_racket(&mut pos, true, true, 100_000, 600 * PX);
    assert_eq!(pos.y, 300 * PX);
}

#[test]
fn opposite_keys_at_upper_edge_let_down_win() {
    let mut pos = Point2::new(10 * PX, 50 * PX);
    steer_racket(&mut pos, true, true, 100_000, 600 * PX);
    assert_eq!(pos.y, 110 * PX);
}

#[test]
fn opposite_keys_at_lower_edge_end_at_the_edge() {
    let mut pos = Point2::new(10 * PX, 550 * PX);
    steer_racket(&mut pos, true, true, 100_000, 600 * PX);
    assert_eq!(pos.y, 550 * PX);
}

#[test]
fn steer_up_only_and_down_only() {
    let mut up = Point2::new(10 * PX, 300 * PX);
    steer_racket(&mut up, true, false, 50_000, 600 * PX);
    assert_eq!(up.y, 270 * PX);
    let mut down = Point2::new(10 * PX, 300 * PX);
    steer_racket(&mut down, false, true, 50_000, 600 * PX);
    assert_eq!(down.y, 330 * PX);
}

#[test]
fn racket_on_field_exactly_as_high_as_itself() {
    let mut pos = Point2::new(0, 0);
    steer_racket(&mut pos, true, true, 16_667, RACKET_HEIGHT);
    assert_eq!(pos.y, RACKET_HEIGHT_HALF);
}

#[test]
fn racket_on_field_lower_than_itself_ends_on_a_bound() {
    // The range is empty: the lower bound is tested first, then the upper.
    let mut from_above = Point2::new(0, 0);
    move_racket(&mut from_above, false, Direction::Up, 0, 60 * PX);
    assert_eq!(from_above.y, 50 * PX);
    let mut from_below = Point2::new(0, 70 * PX);
    move_racket(&mut from_below, false, Direction::Up, 0, 60 * PX);
    assert_eq!(from_below.y, 10 * PX);
}

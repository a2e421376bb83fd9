use whiskerwhomp::fixed::Fixed;
use whiskerwhomp::input::{movement_input, sample, Axis, Intents, MovementCommand};

fn keys(move_left: bool, move_right: bool, jump: bool) -> Intents {
    Intents { move_left, move_right, jump }
}

#[test]
fn keys_become_a_command() {
    assert_eq!(
        sample(keys(false, false, false)),
        MovementCommand { axis: Axis::Neutral, jump: false }
    );
    assert_eq!(sample(keys(true, false, false)).axis, Axis::Left);
    assert_eq!(sample(keys(false, true, false)).axis, Axis::Right);
    assert_eq!(sample(keys(true, true, false)).axis, Axis::Both);
    assert_eq!(sample(keys(true, true, true)), MovementCommand { axis: Axis::Both, jump: true });
    assert!(sample(keys(false, false, true)).jump);
}

#[test]
fn opposite_presses_cancel() {
    let speed = Fixed::from_int(400);
    let axis = sample(keys(true, true, false)).axis;
    assert_eq!(movement_input(axis, speed, 100_000), Fixed::zero());
}

#[test]
fn opposite_presses_cancel_at_the_ends_of_the_range() {
    let axis = Axis::Both;
    assert_eq!(movement_input(axis, Fixed::from_raw(i64::MAX), u64::MAX).raw(), 0);
    assert_eq!(movement_input(axis, Fixed::from_raw(i64::MIN), u64::MAX).raw(), 0);
    assert_eq!(movement_input(axis, Fixed::from_raw(-7), 3).raw(), 0);
}

#[test]
fn right_alone_moves_right() {
    let speed = Fixed::from_int(400);
    let axis = sample(keys(false, true, false)).axis;
    assert_eq!(movement_input(axis, speed, 100_000), Fixed::from_int(40));
}

#[test]
fn left_alone_moves_left() {
    let speed = Fixed::from_int(400);
    let axis = sample(keys(true, false, false)).axis;
    assert_eq!(movement_input(axis, speed, 100_000), Fixed::from_int(-40));
}

#[test]
fn no_press_requests_nothing() {
    assert_eq!(movement_input(Axis::Neutral, Fixed::from_int(400), 100_000).raw(), 0);
}

#[test]
fn the_step_grows_with_the_frame_time() {
    let speed = Fixed::from_int(300);
    assert_eq!(movement_input(Axis::Right, speed, 16_667).raw(), 5_000_100);
    assert_eq!(movement_input(Axis::Right, speed, 33_334).raw(), 10_000_200);
    assert_eq!(movement_input(Axis::Left, speed, 33_334).raw(), -10_000_200);
    assert_eq!(movement_input(Axis::Left, speed, 0).raw(), 0);
}

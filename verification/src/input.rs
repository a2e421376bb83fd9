//! From the keys held in a frame to a movement command, and from the
//! command to the horizontal displacement to request.

use vstd::prelude::*;
use crate::fixed::{saturate, scaled_product, Fixed};

verus! {

/// The keys held in one frame.
#[derive(Clone, Copy, Debug, PartialEq, Eq, Structural)]
pub struct Intents {
    pub move_left: bool,
    pub move_right: bool,
    pub jump: bool,
}

/// The horizontal part of a movement command. `Both` stands for the two
/// directions held at once.
#[derive(Clone, Copy, Debug, PartialEq, Eq, Structural)]
pub enum Axis {
    Neutral,
    Left,
    Right,
    Both,
}

/// What the player asks of the character in one frame.
#[derive(Clone, Copy, Debug, PartialEq, Eq, Structural)]
pub struct MovementCommand {
    pub axis: Axis,
    pub jump: bool,
}

impl Axis {
    /// Whether the command pushes to the right.
    pub open spec fn pushes_right(self) -> bool {
        self == Axis::Right || self == Axis::Both
    }

    /// Whether the command pushes to the left.
    pub open spec fn pushes_left(self) -> bool {
        self == Axis::Left || self == Axis::Both
    }
}

/// The axis for the two direction keys.
pub open spec fn axis_of(left: bool, right: bool) -> Axis {
    if left && right {
        Axis::Both
    } else if left {
        Axis::Left
    } else if right {
        Axis::Right
    } else {
        Axis::Neutral
    }
}

/// The command for the keys held.
pub open spec fn command_of(intents: Intents) -> MovementCommand {
    MovementCommand { axis: axis_of(intents.move_left, intents.move_right), jump: intents.jump }
}

/// The distance covered at `speed` units per second in `dt` microseconds.
pub open spec fn step_length(speed: int, dt: int) -> int {
    saturate(scaled_product(speed, dt))
}

/// The horizontal displacement to request: a step to the right for a push
/// to the right, plus a step to the left for a push to the left.
pub open spec fn horizontal_request(axis: Axis, speed: int, dt: int) -> int {
    (if axis.pushes_right() {
        step_length(speed, dt)
    } else {
        0
    }) + (if axis.pushes_left() {
        -step_length(speed, dt)
    } else {
        0
    })
}

/// Turns the keys held into a movement command.
pub fn sample(intents: Intents) -> (r: MovementCommand)
    ensures
        r == command_of(intents),
{
    let axis: Axis = if intents.move_left && intents.move_right {
        Axis::Both
    } else if intents.move_left {
        Axis::Left
    } else if intents.move_right {
        Axis::Right
    } else {
        Axis::Neutral
    };
    MovementCommand { axis, jump: intents.jump }
}

/// The horizontal displacement to request for a frame of `dt` microseconds
/// at `speed` units per second.
pub fn movement_input(axis: Axis, speed: Fixed, dt: u64) -> (r: Fixed)
    ensures
        r@ == horizontal_request(axis, speed@, dt as int),
{
    let step: Fixed = speed.over_time(dt);
    let mut movement: Fixed = Fixed::zero();
    if matches!(axis, Axis::Right | Axis::Both) {
        movement = movement.saturating_add(step);
    }
    if matches!(axis, Axis::Left | Axis::Both) {
        movement = movement.saturating_add(step.saturating_neg());
    }
    movement
}

/// Both directions held at once cancel: the request is zero, at any speed
/// and over any time.
pub proof fn lemma_opposite_presses_cancel(speed: int, dt: int)
    ensures
        horizontal_request(axis_of(true, true), speed, dt) == 0,
{
}

/// One direction held alone requests the full step, to its side.
pub proof fn lemma_single_press(speed: int, dt: int)
    ensures
        horizontal_request(axis_of(false, true), speed, dt) == step_length(speed, dt),
        horizontal_request(axis_of(true, false), speed, dt) == -step_length(speed, dt),
        horizontal_request(axis_of(false, false), speed, dt) == 0,
{
}

} // verus!

//! The jump arc: a three-state machine whose rising phase follows an eased
//! curve over a fixed duration, and which otherwise pulls the character
//! down at a constant rate.

use vstd::prelude::*;
use vstd::arithmetic::div_mod::{lemma_fundamental_div_mod, lemma_mod_bound};
use crate::easing::{bezier_value, cubic_bezier, ControlPoints};
use crate::fixed::{saturate, scaled_product, Fixed, SCALE};

verus! {

/// How a jump rises: for how long, how high, and along which curve.
#[derive(Clone, Copy, Debug, PartialEq, Eq, Structural)]
pub struct JumpProfile {
    /// Length of the rising phase in microseconds.
    pub duration: u64,
    /// The factor by which the curve's value is scaled.
    pub max_height: Fixed,
    pub easing: ControlPoints,
}

/// The clock of a jump in progress: microseconds since it began.
#[derive(Clone, Copy, Debug, PartialEq, Eq, Structural)]
pub struct Jump {
    pub elapsed: u64,
}

/// Where the character is in its jump arc.
#[derive(Clone, Copy, Debug, PartialEq, Eq, Structural)]
pub enum JumpState {
    Grounded,
    Rising(Jump),
    Falling,
}

/// The share of `duration` that has passed after `elapsed`, in millionths,
/// rounded down; one once the duration is over.
pub open spec fn progress_value(elapsed: int, duration: int) -> int {
    if elapsed >= duration {
        SCALE as int
    } else {
        (elapsed * SCALE) / duration
    }
}

/// The height requested `elapsed` microseconds into a jump.
pub open spec fn rise_height(profile: JumpProfile, elapsed: int) -> int {
    saturate(
        scaled_product(
            bezier_value(
                progress_value(elapsed, profile.duration as int),
                profile.easing.p0@,
                profile.easing.p1@,
                profile.easing.p2@,
                profile.easing.p3@,
            ),
            profile.max_height@,
        ),
    )
}

/// The clock of a jump after `dt` more microseconds, held to `duration`.
pub open spec fn clock_after(elapsed: int, dt: int, duration: int) -> int {
    if elapsed + dt >= duration {
        duration
    } else {
        elapsed + dt
    }
}

/// Two thirds of the launch speed, rounded down: the rate of descent.
pub open spec fn fall_speed(launch_speed: int) -> int {
    (launch_speed * 2) / 3
}

/// The displacement requested over `dt` microseconds of descent: the rate
/// of descent over that time, pointing down.
pub open spec fn fall_drop(launch_speed: int, dt: int) -> int {
    -saturate(scaled_product(fall_speed(launch_speed), dt))
}

/// The state after a jump request: a jump begins only from the ground, when
/// the key is down and the latest contact report says grounded.
pub open spec fn jump_requested(state: JumpState, pressed: bool, grounded: bool) -> JumpState {
    if state == JumpState::Grounded && pressed && grounded {
        JumpState::Rising(Jump { elapsed: 0 })
    } else {
        state
    }
}

/// The state after one frame of `dt` microseconds: a rise runs its clock
/// until the duration has passed and then gives way to the fall; the other
/// states last until contact changes.
pub open spec fn state_after(state: JumpState, profile: JumpProfile, dt: int) -> JumpState {
    match state {
        JumpState::Rising(jump) => if jump.elapsed < profile.duration {
            JumpState::Rising(
                Jump { elapsed: clock_after(jump.elapsed as int, dt, profile.duration as int) as u64 },
            )
        } else {
            JumpState::Falling
        },
        _ => state,
    }
}

/// The vertical displacement requested for one frame of `dt` microseconds:
/// the eased height while a rise goes on, nothing in the frame that ends
/// it, and the drop otherwise. On the ground the drop is requested as in
/// the air: the physics step holds it back at the floor, and by that
/// reports contact.
pub open spec fn vertical_request(
    state: JumpState,
    profile: JumpProfile,
    launch_speed: int,
    dt: int,
) -> int {
    match state {
        JumpState::Rising(jump) => if jump.elapsed < profile.duration {
            rise_height(profile, jump.elapsed as int)
        } else {
            0
        },
        _ => fall_drop(launch_speed, dt),
    }
}

/// The state after the physics step has reported contact: a fall ends on
/// the ground, and ground that gives way starts a fall; a rise goes on.
pub open spec fn state_on_contact(state: JumpState, grounded: bool) -> JumpState {
    match state {
        JumpState::Rising(_) => state,
        _ => if grounded {
            JumpState::Grounded
        } else {
            JumpState::Falling
        },
    }
}

/// The state after `n` frames of `dt` microseconds each, with no contact
/// reported in between.
pub open spec fn state_after_frames(
    state: JumpState,
    profile: JumpProfile,
    dt: int,
    n: nat,
) -> JumpState
    decreases n,
{
    if n == 0 {
        state
    } else {
        state_after(state_after_frames(state, profile, dt, (n - 1) as nat), profile, dt)
    }
}

/// The share of `duration` that has passed after `elapsed` microseconds.
pub fn progress(elapsed: u64, duration: u64) -> (r: Fixed)
    ensures
        r@ == progress_value(elapsed as int, duration as int),
{
    if elapsed >= duration {
        Fixed::one()
    } else {
        let scaled: u128 = elapsed as u128 * 1_000_000;
        proof {
            lemma_progress_below_one(elapsed as int, duration as int);
        }
        let share: u128 = scaled / (duration as u128);
        Fixed { raw: share as i64 }
    }
}

/// The height requested `elapsed` microseconds into a jump: the curve's
/// value at the share of the duration that has passed, scaled by the
/// profile's height.
pub fn height_at(profile: &JumpProfile, elapsed: u64) -> (r: Fixed)
    ensures
        r@ == rise_height(*profile, elapsed as int),
{
    let t: Fixed = progress(elapsed, profile.duration);
    let eased: Fixed = cubic_bezier(
        t,
        profile.easing.p0,
        profile.easing.p1,
        profile.easing.p2,
        profile.easing.p3,
    );
    eased.saturating_mul(profile.max_height)
}

/// One frame of a jump in progress. While the duration has not passed, the
/// result is the next clock and the height to request; once it has, the
/// jump is over and the result is `None`.
pub fn rise(jump: Jump, profile: &JumpProfile, dt: u64) -> (r: Option<(Jump, Fixed)>)
    ensures
        r is None <==> jump.elapsed >= profile.duration,
        r matches Some((next, height)) ==> {
            &&& next.elapsed == clock_after(jump.elapsed as int, dt as int, profile.duration as int)
            &&& height@ == rise_height(*profile, jump.elapsed as int)
        },
{
    if jump.elapsed >= profile.duration {
        return None;
    }
    let height: Fixed = height_at(profile, jump.elapsed);
    let left: u64 = profile.duration - jump.elapsed;
    let elapsed: u64 = if dt >= left {
        profile.duration
    } else {
        jump.elapsed + dt
    };
    Some((Jump { elapsed }, height))
}

/// The displacement requested for `dt` microseconds of descent.
pub fn fall(launch_speed: Fixed, dt: u64) -> (r: Fixed)
    ensures
        r@ == fall_drop(launch_speed@, dt as int),
{
    let doubled: i128 = launch_speed.raw as i128 * 2;
    let rate: i128 = doubled.checked_div_euclid(3).unwrap();
    Fixed { raw: rate as i64 }.over_time(dt).saturating_neg()
}

/// Takes a jump request: from the ground, with the key down and contact
/// reported, a jump begins; in the air the request is ignored.
pub fn jump(state: JumpState, pressed: bool, grounded: bool) -> (r: JumpState)
    ensures
        r == jump_requested(state, pressed, grounded),
{
    match state {
        JumpState::Grounded => {
            if pressed && grounded {
                JumpState::Rising(Jump { elapsed: 0 })
            } else {
                state
            }
        },
        _ => state,
    }
}

/// One frame of the jump arc: the state to go on with, and the vertical
/// displacement to request from the physics step.
pub fn advance(state: JumpState, profile: &JumpProfile, launch_speed: Fixed, dt: u64) -> (r: (
    JumpState,
    Fixed,
))
    ensures
        r.0 == state_after(state, *profile, dt as int),
        r.1@ == vertical_request(state, *profile, launch_speed@, dt as int),
{
    match state {
        JumpState::Rising(current) => match rise(current, profile, dt) {
            Some((next, height)) => (JumpState::Rising(next), height),
            None => (JumpState::Falling, Fixed::zero()),
        },
        _ => (state, fall(launch_speed, dt)),
    }
}

/// Takes the contact report of the physics step.
pub fn land(state: JumpState, grounded: bool) -> (r: JumpState)
    ensures
        r == state_on_contact(state, grounded),
{
    match state {
        JumpState::Rising(_) => state,
        _ => {
            if grounded {
                JumpState::Grounded
            } else {
                JumpState::Falling
            }
        },
    }
}

/// Before the duration is over the share that has passed is below one,
/// however close to the end the clock stands.
pub proof fn lemma_progress_below_one(elapsed: int, duration: int)
    requires
        0 <= elapsed < duration,
    ensures
        0 <= progress_value(elapsed, duration) < SCALE,
{
    assert(0 <= (elapsed * 1_000_000) / duration < 1_000_000) by (nonlinear_arith)
        requires
            0 <= elapsed < duration,
    ;
}

/// The share that has passed is the exact ratio of clock and duration
/// rounded down to a millionth.
pub proof fn lemma_progress_rounds_down(elapsed: int, duration: int)
    requires
        0 <= elapsed < duration,
    ensures
        progress_value(elapsed, duration) * duration <= elapsed * SCALE < (progress_value(
            elapsed,
            duration,
        ) + 1) * duration,
{
    let n = elapsed * SCALE;
    lemma_fundamental_div_mod(n, duration);
    lemma_mod_bound(n, duration);
    assert(duration * (n / duration) == (n / duration) * duration) by (nonlinear_arith);
    assert((n / duration + 1) * duration == (n / duration) * duration + duration)
        by (nonlinear_arith);
}

/// A rise goes on exactly while its clock is short of the duration: the
/// frame that finds the duration passed ends it, and no earlier frame does.
pub proof fn lemma_rise_ends_exactly(jump: Jump, profile: JumpProfile, dt: int)
    ensures
        state_after(JumpState::Rising(jump), profile, dt) is Rising <==> jump.elapsed
            < profile.duration,
        state_after(JumpState::Rising(jump), profile, dt) == JumpState::Falling <==> jump.elapsed
            >= profile.duration,
        jump.elapsed < profile.duration <==> progress_value(
            jump.elapsed as int,
            profile.duration as int,
        ) < SCALE,
{
    if jump.elapsed < profile.duration {
        lemma_progress_below_one(jump.elapsed as int, profile.duration as int);
    }
}

/// The clock of a rise never runs back and never passes the duration.
pub proof fn lemma_clock_bounded(jump: Jump, profile: JumpProfile, dt: int)
    requires
        0 <= dt,
        jump.elapsed < profile.duration,
    ensures
        state_after(JumpState::Rising(jump), profile, dt) matches JumpState::Rising(next)
            && jump.elapsed <= next.elapsed <= profile.duration,
{
}

/// The clock of a rise does not depend on how time is cut into frames: two
/// frames one after the other leave it where one frame of their joint
/// length leaves it.
pub proof fn lemma_clock_splits(elapsed: int, first: int, second: int, duration: int)
    requires
        0 <= second,
    ensures
        clock_after(clock_after(elapsed, first, duration), second, duration) == clock_after(
            elapsed,
            first + second,
            duration,
        ),
{
}

/// Every rise ends: with frames of positive length, once the frames before
/// the last add up to what was left of the duration, the state is
/// `Falling`.
pub proof fn lemma_rise_ends(jump: Jump, profile: JumpProfile, dt: int, n: nat)
    requires
        0 < dt,
        1 <= n,
        jump.elapsed + (n - 1) * dt >= profile.duration,
    ensures
        state_after_frames(JumpState::Rising(jump), profile, dt, n) == JumpState::Falling,
{
    lemma_rise_runs(jump, profile, dt, n);
}

/// A jump request in the air changes nothing.
pub proof fn lemma_no_double_jump(state: JumpState, pressed: bool, grounded: bool)
    requires
        state != JumpState::Grounded,
    ensures
        jump_requested(state, pressed, grounded) == state,
{
}

/// A jump request without reported contact changes nothing, whatever the
/// state.
pub proof fn lemma_no_jump_without_contact(state: JumpState, pressed: bool)
    ensures
        jump_requested(state, pressed, false) == state,
{
}

/// Contact decides between ground and fall, and leaves a rise alone.
pub proof fn lemma_contact_decides(state: JumpState, grounded: bool)
    ensures
        state is Rising ==> state_on_contact(state, grounded) == state,
        !(state is Rising) ==> (state_on_contact(state, grounded) == JumpState::Grounded
            <==> grounded),
        !(state is Rising) ==> (state_on_contact(state, grounded) == JumpState::Falling
            <==> !grounded),
{
}

/// The state `n` frames into a rise: still rising, with the clock run on
/// by `n` frames and held to the duration, until a frame finds the
/// duration passed; falling from then on.
proof fn lemma_rise_runs(jump: Jump, profile: JumpProfile, dt: int, n: nat)
    requires
        0 < dt,
    ensures
        state_after_frames(JumpState::Rising(jump), profile, dt, n) == (if n >= 1 && jump.elapsed
            + (n - 1) * dt >= profile.duration {
            JumpState::Falling
        } else if n == 0 {
            JumpState::Rising(jump)
        } else {
            JumpState::Rising(
                Jump {
                    elapsed: clock_after(
                        jump.elapsed as int,
                        n * dt,
                        profile.duration as int,
                    ) as u64,
                },
            )
        }),
    decreases n,
{
    if n >= 1 {
        lemma_rise_runs(jump, profile, dt, (n - 1) as nat);
        assert((n - 1) * dt + dt == n * dt) by (nonlinear_arith);
        assert((n - 1) * dt >= 0) by (nonlinear_arith)
            requires
                n >= 1,
                dt > 0,
        ;
        if n >= 2 {
            assert((n - 2) * dt + dt == (n - 1) * dt) by (nonlinear_arith);
            assert((n - 2) * dt >= 0) by (nonlinear_arith)
                requires
                    n >= 2,
                    dt > 0,
            ;
        }
    }
}

} // verus!

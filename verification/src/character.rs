//! A character, and the two halves of its frame: what it asks of the
//! physics step, and what it makes of the step's report.

use vstd::prelude::*;
use crate::animation::{Animation, AnimationSet, AnimationState, AnimationView};
use crate::contact::{contact_change, ContactChange, GroundContactTracker, PhysicsFeedback};
use crate::fixed::Fixed;
use crate::input::{command_of, horizontal_request, movement_input, sample, Intents, MovementCommand};
use crate::movement::{
    advance,
    jump,
    jump_requested,
    land,
    state_after,
    state_on_contact,
    vertical_request,
    JumpProfile,
    JumpState,
};
use crate::vector::Vector2;

verus! {

/// The side a character faces.
#[derive(Clone, Copy, Debug, PartialEq, Eq, Structural)]
pub enum Direction {
    Right,
    Left,
}

/// What a character can do: its speed along the ground and the speed at
/// which it leaves the ground, in units per second.
#[derive(Clone, Copy, Debug, PartialEq, Eq, Structural)]
pub struct Velocity {
    pub x: Fixed,
    pub y: Fixed,
}

/// The side faced after a horizontal request: the side of the request, or
/// the side faced before if nothing was requested.
pub open spec fn facing_after(current: Direction, request_x: int) -> Direction {
    if request_x > 0 {
        Direction::Right
    } else if request_x < 0 {
        Direction::Left
    } else {
        current
    }
}

/// The side to face after the latest horizontal request.
pub fn update_direction(current: Direction, request_x: Fixed) -> (r: Direction)
    ensures
        r == facing_after(current, request_x@),
{
    if request_x.raw > 0 {
        Direction::Right
    } else if request_x.raw < 0 {
        Direction::Left
    } else {
        current
    }
}

/// Whether the sprite, drawn facing right, is to be mirrored.
pub fn update_sprite_direction(direction: Direction) -> (flip_x: bool)
    ensures
        flip_x <==> direction == Direction::Left,
{
    match direction {
        Direction::Right => false,
        Direction::Left => true,
    }
}

/// One playable character.
pub struct Character {
    /// Where the physics step has put the character.
    pub position: Vector2,
    pub velocity: Velocity,
    pub facing: Direction,
    pub jump_state: JumpState,
    pub animation: Animation,
    pub contact: GroundContactTracker,
    /// The displacement last asked of the physics step.
    pub requested: Vector2,
}

/// What is shown of a character.
#[derive(Clone, Copy, Debug, PartialEq, Eq, Structural)]
pub struct Resolved {
    pub position: Vector2,
    pub facing: Direction,
    pub sprite_index: usize,
}

impl Character {
    /// A character at rest on the ground, idle, with nothing requested and
    /// no contact reported yet.
    pub fn new(
        position: Vector2,
        velocity: Velocity,
        facing: Direction,
        animations: &AnimationSet,
    ) -> (r: Character)
        ensures
            r.position == position,
            r.velocity == velocity,
            r.facing == facing,
            r.jump_state == JumpState::Grounded,
            r.animation@ == (AnimationView {
                state: AnimationState::Idle,
                sprites: animations@.idle,
                cursor: 0,
                clock: 0,
            }),
            r.animation@.wf(),
            !r.contact.grounded,
            r.contact.applied_translation.x@ == 0,
            r.contact.applied_translation.y@ == 0,
            r.requested.x@ == 0,
            r.requested.y@ == 0,
    {
        Character {
            position,
            velocity,
            facing,
            jump_state: JumpState::Grounded,
            animation: Animation::new(animations),
            contact: GroundContactTracker::new(false),
            requested: Vector2::zero(),
        }
    }

    /// What to show of the character as it stands.
    pub fn resolved(&self) -> (r: Resolved)
        ensures
            r.position == self.position,
            r.facing == self.facing,
            r.sprite_index == self.animation@.sprite_index(),
            self.animation@.wf(),
    {
        Resolved {
            position: self.position,
            facing: self.facing,
            sprite_index: self.animation.sprite_index(),
        }
    }

    /// The first half of a frame, before the physics step: turns the keys
    /// held into the displacement to request. A jump request is judged by
    /// the contact report of the frame before; then the jump arc runs for
    /// `dt` microseconds.
    pub fn drive(&mut self, intents: Intents, profile: &JumpProfile, dt: u64) -> (r: Vector2)
        ensures
            r.x@ == horizontal_request(
                command_of(intents).axis,
                old(self).velocity.x@,
                dt as int,
            ),
            r.y@ == vertical_request(
                jump_requested(old(self).jump_state, intents.jump, old(self).contact.grounded),
                *profile,
                old(self).velocity.y@,
                dt as int,
            ),
            final(self).jump_state == state_after(
                jump_requested(old(self).jump_state, intents.jump, old(self).contact.grounded),
                *profile,
                dt as int,
            ),
            final(self).requested == r,
            final(self).position == old(self).position,
            final(self).velocity == old(self).velocity,
            final(self).facing == old(self).facing,
            final(self).animation@ == old(self).animation@,
            final(self).contact == old(self).contact,
    {
        let command: MovementCommand = sample(intents);
        let x: Fixed = movement_input(command.axis, self.velocity.x, dt);
        let launched: JumpState = jump(self.jump_state, command.jump, self.contact.grounded);
        let (state, y) = advance(launched, profile, self.velocity.y, dt);
        self.jump_state = state;
        self.requested = Vector2::new(x, y);
        self.requested
    }

    /// The second half of a frame, after the physics step: takes the
    /// step's report and the place it has put the character, and brings
    /// jump state, animation and facing up to date, in that order. The
    /// animation and the facing go by this frame's report and by the
    /// horizontal displacement that was requested for it.
    pub fn settle(
        &mut self,
        feedback: PhysicsFeedback,
        position: Vector2,
        animations: &AnimationSet,
        dt: u64,
    ) -> (r: ContactChange)
        ensures
            r == contact_change(old(self).contact.grounded, feedback.grounded),
            final(self).contact.grounded == feedback.grounded,
            final(self).contact.applied_translation == feedback.applied_translation,
            final(self).jump_state == state_on_contact(old(self).jump_state, feedback.grounded),
            final(self).animation@ == old(self).animation@.updated(
                animations@,
                feedback.grounded,
                old(self).requested.x@,
                dt as int,
            ),
            final(self).animation@.wf(),
            final(self).facing == facing_after(old(self).facing, old(self).requested.x@),
            final(self).position == position,
            final(self).velocity == old(self).velocity,
            final(self).requested == old(self).requested,
    {
        let change: ContactChange = self.contact.sample(feedback);
        self.jump_state = land(self.jump_state, feedback.grounded);
        self.animation.update(animations, feedback.grounded, self.requested.x, dt);
        self.facing = update_direction(self.facing, self.requested.x);
        self.position = position;
        change
    }
}

/// Nothing requested leaves the facing as it was; a request to one side
/// turns the character to that side, whichever way it faced.
pub proof fn lemma_facing_sticks(current: Direction, request_x: int)
    ensures
        request_x == 0 ==> facing_after(current, request_x) == current,
        request_x > 0 ==> facing_after(current, request_x) == Direction::Right,
        request_x < 0 ==> facing_after(current, request_x) == Direction::Left,
        facing_after(facing_after(current, request_x), 0) == facing_after(current, request_x),
{
}

} // verus!

//! What the physics step reports back for a character, held for the stages
//! that run after it in the same frame.

use vstd::prelude::*;
use crate::vector::Vector2;

verus! {

/// The report of the physics step for one character: whether it rests on a
/// surface, and the translation that was applied once collisions were
/// resolved.
#[derive(Clone, Copy, Debug, PartialEq, Eq, Structural)]
pub struct PhysicsFeedback {
    pub grounded: bool,
    pub applied_translation: Vector2,
}

/// How ground contact changed from one report to the next.
#[derive(Clone, Copy, Debug, PartialEq, Eq, Structural)]
pub enum ContactChange {
    Unchanged,
    Landed,
    LeftGround,
}

/// The latest report. It has no state beyond that.
#[derive(Clone, Copy, Debug, PartialEq, Eq, Structural)]
pub struct GroundContactTracker {
    pub grounded: bool,
    pub applied_translation: Vector2,
}

/// The change between two contact flags.
pub open spec fn contact_change(before: bool, after: bool) -> ContactChange {
    if before == after {
        ContactChange::Unchanged
    } else if after {
        ContactChange::Landed
    } else {
        ContactChange::LeftGround
    }
}

impl GroundContactTracker {
    /// A tracker that has seen no movement yet.
    pub fn new(grounded: bool) -> (r: GroundContactTracker)
        ensures
            r.grounded == grounded,
            r.applied_translation.x@ == 0,
            r.applied_translation.y@ == 0,
    {
        GroundContactTracker { grounded, applied_translation: Vector2::zero() }
    }

    /// Takes this frame's report, and says how contact changed against the
    /// report before it.
    pub fn sample(&mut self, feedback: PhysicsFeedback) -> (r: ContactChange)
        ensures
            final(self).grounded == feedback.grounded,
            final(self).applied_translation == feedback.applied_translation,
            r == contact_change(old(self).grounded, feedback.grounded),
    {
        let before: bool = self.grounded;
        self.grounded = feedback.grounded;
        self.applied_translation = feedback.applied_translation;
        if before == feedback.grounded {
            ContactChange::Unchanged
        } else if feedback.grounded {
            ContactChange::Landed
        } else {
            ContactChange::LeftGround
        }
    }
}

} // verus!

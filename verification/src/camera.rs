//! A camera that scrolls only when its subject nears the edge of the view.

use vstd::prelude::*;
use crate::fixed::{saturate, saturated, Fixed};
use crate::vector::Vector2;

verus! {

/// The camera: where it looks, half the width of its view, and the margin
/// kept between the subject and the edge of the view.
#[derive(Clone, Copy, Debug, PartialEq, Eq, Structural)]
pub struct CameraRig {
    pub position: Vector2,
    pub deadzone_half_width: Fixed,
    pub edge_margin: Fixed,
}

/// The leftmost place of the subject that leaves the camera at rest.
pub open spec fn left_bound(camera_x: int, half_width: int, margin: int) -> int {
    camera_x - half_width + margin
}

/// The rightmost place of the subject that leaves the camera at rest.
pub open spec fn right_bound(camera_x: int, half_width: int, margin: int) -> int {
    camera_x + half_width - margin
}

/// By how much the camera moves for a subject at `subject_x`: by what the
/// subject is beyond the right bound, else by what it is short of the left
/// bound, else not at all.
pub open spec fn camera_shift(camera_x: int, half_width: int, margin: int, subject_x: int) -> int {
    if subject_x > right_bound(camera_x, half_width, margin) {
        subject_x - right_bound(camera_x, half_width, margin)
    } else if subject_x < left_bound(camera_x, half_width, margin) {
        subject_x - left_bound(camera_x, half_width, margin)
    } else {
        0
    }
}

impl CameraRig {
    /// The shift that a subject at `subject_x` asks of this camera.
    pub open spec fn shift_for(self, subject_x: int) -> int {
        camera_shift(self.position.x@, self.deadzone_half_width@, self.edge_margin@, subject_x)
    }

    /// Where this camera looks once it has followed a subject at
    /// `subject_x`: where it looked before if no shift is asked for, else
    /// there plus the shift.
    pub open spec fn followed_x(self, subject_x: int) -> int {
        if self.shift_for(subject_x) == 0 {
            self.position.x@
        } else {
            saturate(self.position.x@ + self.shift_for(subject_x))
        }
    }

    /// The two bounds between which the subject leaves the camera at rest,
    /// left then right.
    pub fn bounds(&self) -> (r: (Fixed, Fixed))
        ensures
            r.0@ == saturate(
                left_bound(self.position.x@, self.deadzone_half_width@, self.edge_margin@),
            ),
            r.1@ == saturate(
                right_bound(self.position.x@, self.deadzone_half_width@, self.edge_margin@),
            ),
    {
        let x: i128 = self.position.x.raw as i128;
        let half: i128 = self.deadzone_half_width.raw as i128;
        let margin: i128 = self.edge_margin.raw as i128;
        (saturated(x - half + margin), saturated(x + half - margin))
    }

    /// Follows a subject at `subject_x`: the camera moves by the shift that
    /// the subject asks for, sideways only.
    pub fn follow(&mut self, subject_x: Fixed)
        ensures
            final(self).position.x@ == old(self).followed_x(subject_x@),
            final(self).position.y == old(self).position.y,
            final(self).deadzone_half_width == old(self).deadzone_half_width,
            final(self).edge_margin == old(self).edge_margin,
    {
        let x: i128 = self.position.x.raw as i128;
        let half: i128 = self.deadzone_half_width.raw as i128;
        let margin: i128 = self.edge_margin.raw as i128;
        let subject: i128 = subject_x.raw as i128;
        let left: i128 = x - half + margin;
        let right: i128 = x + half - margin;
        if subject > right {
            self.position.x = saturated(x + (subject - right));
        } else if subject < left {
            self.position.x = saturated(x + (subject - left));
        }
    }

    /// Follows the subject if there is one; without a subject the camera
    /// stays as it is.
    pub fn track(&mut self, subject: Option<Vector2>)
        ensures
            subject matches Some(at) ==> final(self).position.x@ == old(self).followed_x(at.x@),
            subject is None ==> final(self).position.x == old(self).position.x,
            final(self).position.y == old(self).position.y,
            final(self).deadzone_half_width == old(self).deadzone_half_width,
            final(self).edge_margin == old(self).edge_margin,
    {
        match subject {
            Some(at) => self.follow(at.x),
            None => {},
        }
    }
}

/// A subject between the bounds leaves the camera where it is.
pub proof fn lemma_rest_inside_deadzone(camera: CameraRig, subject_x: int)
    requires
        left_bound(camera.position.x@, camera.deadzone_half_width@, camera.edge_margin@)
            <= subject_x <= right_bound(
            camera.position.x@,
            camera.deadzone_half_width@,
            camera.edge_margin@,
        ),
    ensures
        camera.shift_for(subject_x) == 0,
        camera.followed_x(subject_x) == camera.position.x@,
{
}

/// Where the margin is no wider than half the view, a camera that has
/// moved by the shift holds the subject exactly on the bound it had
/// crossed, and asks for no further shift.
pub proof fn lemma_follow_settles(camera_x: int, half_width: int, margin: int, subject_x: int)
    requires
        margin <= half_width,
    ensures
        ({
            let moved = camera_x + camera_shift(camera_x, half_width, margin, subject_x);
            &&& camera_shift(moved, half_width, margin, subject_x) == 0
            &&& subject_x > right_bound(camera_x, half_width, margin) ==> subject_x == right_bound(
                moved,
                half_width,
                margin,
            )
            &&& subject_x < left_bound(camera_x, half_width, margin) ==> subject_x == left_bound(
                moved,
                half_width,
                margin,
            )
        }),
{
}

} // verus!

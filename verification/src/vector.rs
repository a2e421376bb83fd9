//! Points and displacements in the plane.

use vstd::prelude::*;
use crate::fixed::Fixed;

verus! {

/// A point or a displacement: `x` grows to the right, `y` upwards.
#[derive(Clone, Copy, Debug, PartialEq, Eq, Structural)]
pub struct Vector2 {
    pub x: Fixed,
    pub y: Fixed,
}

impl Vector2 {
    /// The vector with the given parts.
    pub fn new(x: Fixed, y: Fixed) -> (r: Vector2)
        ensures
            r.x == x,
            r.y == y,
    {
        Vector2 { x, y }
    }

    /// The vector of no length.
    pub fn zero() -> (r: Vector2)
        ensures
            r.x@ == 0,
            r.y@ == 0,
    {
        Vector2 { x: Fixed::zero(), y: Fixed::zero() }
    }
}

} // verus!

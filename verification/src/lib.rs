//! Per-frame character control for a 2D side-scrolling platformer.
//!
//! A frame has two halves around the physics step. Before the step, the keys
//! held become a movement command, and the command becomes the displacement
//! to ask for: a horizontal step at the character's speed, and a vertical
//! part that follows the jump arc. After the step, its report on ground
//! contact settles the jump state, picks the animation and the facing, and
//! the camera follows the character once it nears the edge of the view.
//!
//! All quantities are integers: lengths and speeds in millionths of a unit,
//! time in microseconds. Every result is stated exactly, rounding included.

pub mod animation;
pub mod camera;
pub mod character;
pub mod contact;
pub mod easing;
pub mod fixed;
pub mod input;
pub mod movement;
pub mod vector;

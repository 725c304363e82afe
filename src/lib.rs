//! Per-frame bookkeeping of a small 2D arcade shooter: the frame counter and
//! the cadence on which bullets are fired and flagged entities are swept away.
//! The vector arithmetic of movement, aiming and camera tracking runs on
//! floating point in the application around this library.

mod components;
mod schedule;

pub use components::{frame, DieOutOfBounds, Frame};
pub use schedule::{bounds_check, bullet_due, on_cadence, repeated, CADENCE};

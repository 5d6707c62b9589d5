//! A virtual on-screen joystick widget: a circular background and a draggable
//! knob that track mouse or touch input and report, once per frame, a compass
//! direction, a normalized intensity, and the drag offset.
//!
//! The widget works on integer coordinates. A host that measures positions in
//! floating-point pixels picks a fixed-point scale (say, thousandths of a
//! pixel), converts positions on the way in, and divides by the same scale on
//! the way out; the host also owns the frame loop, input polling, and drawing.
//! Keeping the geometry integral makes every computation exact and lets each
//! update be specified and verified in full: the sector a drag points into is
//! decided by exact comparisons, the drag distance by an integer square root,
//! and the knob is clamped to the background's rim to within one coordinate
//! unit.

use vstd::prelude::*;

pub mod direction;
pub mod element;
pub mod event;
pub mod geometry;
pub mod joystick;

pub use direction::JoystickDirection;
pub use element::JoystickElement;
pub use event::JoystickEvent;
pub use joystick::{Joystick, MouseState, Touch, TouchPhase};

verus! {

/// Largest coordinate magnitude the widget accepts (2^28). Centers, sizes and
/// input positions are kept within this bound so that every intermediate
/// product of the geometry fits comfortably in an `i64`.
pub const COORD_MAX: i64 = 268435456;

/// Denominator of the fixed-point intensity: an event's `intensity` field
/// ranges from 0 (knob at the center) to `INTENSITY_SCALE` (knob at or beyond
/// the background's rim).
pub const INTENSITY_SCALE: i64 = 1000;

} // verus!

//! The per-frame report of the joystick's drag state.

use vstd::prelude::*;

verus! {

use crate::direction::JoystickDirection;

/// One frame's report of the drag: produced fresh by every call to
/// `Joystick::update` and carrying no state of its own.
///
/// `intensity` is the normalized drag distance scaled by
/// `crate::INTENSITY_SCALE`: 0 with the knob at the center, the full scale
/// with the knob at or beyond the background's rim. `delta_x` and `delta_y`
/// are the drag position's offset from the joystick's center, in the same
/// integer coordinates as the widget; a host that wants the drag angle in
/// radians computes `atan2(delta_y, delta_x)` from them.
#[derive(Clone, Copy, Debug, PartialEq, Eq, Structural)]
pub struct JoystickEvent {
    /// The compass direction the drag points into, `Idle` while the drag
    /// offset is zero or no drag is active.
    pub direction: JoystickDirection,
    /// Normalized drag distance, from 0 to `crate::INTENSITY_SCALE`.
    pub intensity: i64,
    /// x offset of the drag position from the joystick's center.
    pub delta_x: i64,
    /// y offset of the drag position from the joystick's center.
    pub delta_y: i64,
}

impl JoystickEvent {
    /// The event reported while no drag is active: `Idle`, zero intensity,
    /// zero offset.
    pub open spec fn spec_default() -> JoystickEvent {
        JoystickEvent { direction: JoystickDirection::Idle, intensity: 0, delta_x: 0, delta_y: 0 }
    }

    /// Packs the fields of one report.
    pub(crate) fn new(
        direction: JoystickDirection,
        intensity: i64,
        delta_x: i64,
        delta_y: i64,
    ) -> (event: JoystickEvent)
        ensures
            event == (JoystickEvent { direction, intensity, delta_x, delta_y }),
    {
        JoystickEvent { direction, intensity, delta_x, delta_y }
    }
}

impl Default for JoystickEvent {
    /// The neutral report; equal to `JoystickEvent::spec_default`.
    fn default() -> (event: Self)
        ensures
            event == Self::spec_default(),
    {
        JoystickEvent { direction: JoystickDirection::Idle, intensity: 0, delta_x: 0, delta_y: 0 }
    }
}

} // verus!

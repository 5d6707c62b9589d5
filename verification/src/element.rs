//! The circular elements the joystick is drawn from.

use vstd::prelude::*;

verus! {

/// One circular element of the joystick — the background or the knob.
///
/// The element holds only the geometry the widget tracks: a center position
/// and a radius, in the widget's integer coordinates. How the circle is drawn
/// is the host's business; it reads the live position and radius each frame
/// and issues its own draw call. A negative radius is accepted and simply
/// describes a degenerate circle.
#[derive(Clone, Copy, Debug, PartialEq, Eq, Structural)]
pub struct JoystickElement {
    /// x coordinate of the element's center.
    pub x: i64,
    /// y coordinate of the element's center.
    pub y: i64,
    /// Radius of the element's circle.
    pub radius: i64,
}

impl JoystickElement {
    /// Makes an element centered at (x, y) with the given radius.
    pub fn new(x: i64, y: i64, radius: i64) -> (element: JoystickElement)
        ensures
            element == (JoystickElement { x, y, radius }),
    {
        JoystickElement { x, y, radius }
    }
}

} // verus!

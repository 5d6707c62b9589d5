//! The joystick widget: drag state, per-frame update, and the laws the
//! update obeys.

use vstd::prelude::*;

verus! {

use crate::direction::{spec_delta_direction, JoystickDirection};
use crate::element::JoystickElement;
use crate::event::JoystickEvent;
use crate::geometry::{dist2, scale_offset, sq, sqrt_floor};
use crate::geometry::{isqrt, lemma_scale_offset_bounds, lemma_sqrt_floor_char};
use crate::{COORD_MAX, INTENSITY_SCALE};
use vstd::arithmetic::div_mod::{
    lemma_div_is_ordered,
    lemma_div_multiples_vanish,
    lemma_div_pos_is_pos,
};

/// The lifecycle stage of one touch contact, as the host reports it for the
/// current frame.
#[derive(Clone, Copy, Debug, PartialEq, Eq, Structural)]
pub enum TouchPhase {
    /// The contact began this frame.
    Started,
    /// The contact exists but did not move this frame.
    Stationary,
    /// The contact moved this frame.
    Moved,
    /// The contact ended this frame.
    Ended,
    /// The contact was cancelled by the system this frame.
    Cancelled,
}

/// One active touch point for the current frame: an identifier stable over
/// the contact's lifetime, a position in the widget's integer coordinates,
/// and the contact's phase.
#[derive(Clone, Copy, Debug, PartialEq, Eq, Structural)]
pub struct Touch {
    /// The host's identifier for this contact.
    pub id: u64,
    /// x coordinate of the touch position.
    pub x: i64,
    /// y coordinate of the touch position.
    pub y: i64,
    /// The contact's lifecycle stage this frame.
    pub phase: TouchPhase,
}

/// The mouse's state for the current frame: position in the widget's integer
/// coordinates and whether the left button is held down.
#[derive(Clone, Copy, Debug, PartialEq, Eq, Structural)]
pub struct MouseState {
    /// x coordinate of the mouse position.
    pub x: i64,
    /// y coordinate of the mouse position.
    pub y: i64,
    /// Whether the left button is held down.
    pub down: bool,
}

/// The joystick widget: a fixed center and size, the two drawn elements, and
/// the current drag state.
///
/// The joystick is made once and then mutated once per frame by `update`.
/// Only the knob's position ever changes after construction; it stays within
/// one coordinate unit of the background's radius around the center, and sits
/// exactly at the center whenever no drag is active.
pub struct Joystick {
    /// x coordinate of the widget's fixed center.
    pub center_x: i64,
    /// y coordinate of the widget's fixed center.
    pub center_y: i64,
    /// Diameter of the background circle; the knob travels within half of it.
    pub size: i64,
    /// The background element; never moves after construction.
    pub background: JoystickElement,
    /// The knob element; tracks the clamped drag position.
    pub knob: JoystickElement,
    /// Whether a drag is active.
    pub dragging: bool,
    /// While a touch drag is active, the identifier of the bound contact.
    pub touch_id: u64,
    /// The report of the most recent update.
    pub event: JoystickEvent,
}

/// Whether a touch position is within the coordinate bound the widget
/// accepts.
pub open spec fn touch_in_range(t: Touch) -> bool {
    &&& -COORD_MAX <= t.x <= COORD_MAX
    &&& -COORD_MAX <= t.y <= COORD_MAX
}

/// Whether every touch of a frame is within the coordinate bound.
pub open spec fn touches_in_range(ts: Seq<Touch>) -> bool {
    forall|k: int| 0 <= k < ts.len() ==> touch_in_range(#[trigger] ts[k])
}

/// Whether the mouse position is within the coordinate bound.
pub open spec fn mouse_in_range(m: MouseState) -> bool {
    &&& -COORD_MAX <= m.x <= COORD_MAX
    &&& -COORD_MAX <= m.y <= COORD_MAX
}

impl Joystick {
    /// The widget's invariant: bounded geometry, a background that mirrors
    /// the fixed center and radius, a knob within one unit of the background's
    /// rim, an intensity within scale, and — whenever no drag is active — the
    /// knob at rest on the center with the neutral event.
    pub open spec fn wf(self) -> bool {
        &&& -COORD_MAX <= self.center_x <= COORD_MAX
        &&& -COORD_MAX <= self.center_y <= COORD_MAX
        &&& 0 <= self.size <= COORD_MAX
        &&& self.background.x == self.center_x
        &&& self.background.y == self.center_y
        &&& self.background.radius == self.size / 2
        &&& 0 <= self.knob.radius <= COORD_MAX
        &&& dist2(self.knob.x - self.center_x, self.knob.y - self.center_y) < sq(
            self.size / 2 + 1,
        )
        &&& 0 <= self.event.intensity <= INTENSITY_SCALE
        &&& !self.dragging ==> self.knob.x == self.center_x && self.knob.y == self.center_y
            && self.event == JoystickEvent::spec_default()
    }

    /// The state after the drag is released: the knob back on the center, no
    /// drag active, the neutral event.
    pub open spec fn spec_reset(self) -> Joystick {
        Joystick {
            dragging: false,
            knob: JoystickElement { x: self.center_x, y: self.center_y, radius: self.knob.radius },
            event: JoystickEvent::spec_default(),
            ..self
        }
    }

    /// The state after the knob follows a drag position (px, py).
    ///
    /// With delta the offset of the drag position from the center and r the
    /// background's radius: while the squared length of delta is within r^2
    /// the knob sits on the drag position itself; beyond that the knob is
    /// pulled back onto the rim by scaling delta with r over the floor square
    /// root of its squared length. The recorded distance is the floor square
    /// root of the squared length, clamped to r; the intensity is that
    /// distance over r, scaled by `INTENSITY_SCALE` and rounded down (zero
    /// for a degenerate widget of radius zero). The direction is `Idle` for
    /// the zero offset and otherwise the offset's compass sector, and the
    /// event keeps the raw offset so that the host can recover the drag
    /// angle.
    pub open spec fn spec_moving(self, px: i64, py: i64) -> Joystick {
        let r = self.size / 2;
        let dx = px - self.center_x;
        let dy = py - self.center_y;
        let d2 = dist2(dx, dy);
        let root = sqrt_floor(d2);
        let kx = if d2 <= r * r {
            px as int
        } else {
            self.center_x + scale_offset(dx, r, root)
        };
        let ky = if d2 <= r * r {
            py as int
        } else {
            self.center_y + scale_offset(dy, r, root)
        };
        let dist = if d2 <= r * r {
            root
        } else {
            r
        };
        let intensity = if r > 0 {
            dist * INTENSITY_SCALE / r
        } else {
            0
        };
        let direction = if d2 == 0 {
            JoystickDirection::Idle
        } else {
            spec_delta_direction(dx, dy)
        };
        Joystick {
            knob: JoystickElement { x: kx as i64, y: ky as i64, radius: self.knob.radius },
            event: JoystickEvent {
                direction,
                intensity: intensity as i64,
                delta_x: dx as i64,
                delta_y: dy as i64,
            },
            ..self
        }
    }

    /// The state after one touch is taken into account.
    ///
    /// A touch that starts strictly inside the background circle while no
    /// drag is active binds the drag to its identifier and moves the knob; a
    /// move of the bound contact moves the knob; an end or a cancellation of
    /// the bound contact releases the drag. Everything else — stationary
    /// contacts, starts while a drag is active, and moves or ends of other
    /// contacts — changes nothing.
    pub open spec fn spec_touch_step(self, t: Touch) -> Joystick {
        match t.phase {
            TouchPhase::Started => {
                if !self.dragging && dist2(t.x - self.center_x, t.y - self.center_y) < sq(
                    self.size / 2,
                ) {
                    Joystick { dragging: true, touch_id: t.id, ..self }.spec_moving(t.x, t.y)
                } else {
                    self
                }
            },
            TouchPhase::Moved => {
                if self.dragging && t.id == self.touch_id {
                    self.spec_moving(t.x, t.y)
                } else {
                    self
                }
            },
            TouchPhase::Ended | TouchPhase::Cancelled => {
                if self.dragging && t.id == self.touch_id {
                    self.spec_reset()
                } else {
                    self
                }
            },
            TouchPhase::Stationary => self,
        }
    }

    /// The state after a frame's touches are taken into account in order.
    pub open spec fn spec_update_touch(self, ts: Seq<Touch>) -> Joystick
        decreases ts.len(),
    {
        if ts.len() == 0 {
            self
        } else {
            self.spec_touch_step(ts[0]).spec_update_touch(ts.drop_first())
        }
    }

    /// The state after the mouse is taken into account.
    ///
    /// An active drag follows the mouse while the button is held and is
    /// released when it is not; with no drag active, a press strictly inside
    /// the background circle starts one, and anything else changes nothing.
    pub open spec fn spec_update_mouse(self, m: MouseState) -> Joystick {
        if self.dragging {
            if m.down {
                self.spec_moving(m.x, m.y)
            } else {
                self.spec_reset()
            }
        } else if m.down && dist2(m.x - self.center_x, m.y - self.center_y) < sq(self.size / 2) {
            Joystick { dragging: true, ..self }.spec_moving(m.x, m.y)
        } else {
            self
        }
    }

    /// The state after one frame: touches take priority whenever at least one
    /// is reported, otherwise the mouse is serviced.
    pub open spec fn spec_update(self, ts: Seq<Touch>, m: MouseState) -> Joystick {
        if ts.len() == 0 {
            self.spec_update_mouse(m)
        } else {
            self.spec_update_touch(ts)
        }
    }

    /// Makes a joystick centered at (x, y) whose background circle has
    /// diameter `size`. The background's radius is half the size, the knob's
    /// a quarter of it; no drag is active and the event is neutral.
    pub fn new(x: i64, y: i64, size: i64) -> (joystick: Joystick)
        requires
            -COORD_MAX <= x <= COORD_MAX,
            -COORD_MAX <= y <= COORD_MAX,
            0 <= size <= COORD_MAX,
        ensures
            joystick == (Joystick {
                center_x: x,
                center_y: y,
                size,
                background: JoystickElement { x, y, radius: (size / 2) as i64 },
                knob: JoystickElement { x, y, radius: (size / 4) as i64 },
                dragging: false,
                touch_id: 0,
                event: JoystickEvent::spec_default(),
            }),
            joystick.wf(),
    {
        let background = JoystickElement::new(x, y, size / 2);
        let knob = JoystickElement::new(x, y, size / 4);
        let joystick = Joystick {
            center_x: x,
            center_y: y,
            size,
            background,
            knob,
            dragging: false,
            touch_id: 0,
            event: JoystickEvent::default(),
        };
        proof {
            crate::geometry::lemma_zero_within_rim(joystick.size / 2);
        }
        joystick
    }

    /// Makes a joystick with an explicit knob diameter, for hosts that draw
    /// their own elements. The background's radius is half of `size`, the
    /// knob's half of `knob_size`; no drag is active and the event is
    /// neutral.
    pub fn from_custom_elements(x: i64, y: i64, size: i64, knob_size: i64) -> (joystick: Joystick)
        requires
            -COORD_MAX <= x <= COORD_MAX,
            -COORD_MAX <= y <= COORD_MAX,
            0 <= size <= COORD_MAX,
            0 <= knob_size <= COORD_MAX,
        ensures
            joystick == (Joystick {
                center_x: x,
                center_y: y,
                size,
                background: JoystickElement { x, y, radius: (size / 2) as i64 },
                knob: JoystickElement { x, y, radius: (knob_size / 2) as i64 },
                dragging: false,
                touch_id: 0,
                event: JoystickEvent::spec_default(),
            }),
            joystick.wf(),
    {
        let background = JoystickElement::new(x, y, size / 2);
        let knob = JoystickElement::new(x, y, knob_size / 2);
        let joystick = Joystick {
            center_x: x,
            center_y: y,
            size,
            background,
            knob,
            dragging: false,
            touch_id: 0,
            event: JoystickEvent::default(),
        };
        proof {
            crate::geometry::lemma_zero_within_rim(joystick.size / 2);
        }
        joystick
    }

    /// Releases the drag: the knob returns to the center, no drag is active,
    /// and the event is neutral.
    fn reset(&mut self)
        requires
            old(self).wf(),
        ensures
            *final(self) == old(self).spec_reset(),
            final(self).wf(),
    {
        self.dragging = false;
        self.knob.x = self.center_x;
        self.knob.y = self.center_y;
        self.event = JoystickEvent::default();
        proof {
            crate::geometry::lemma_zero_within_rim(self.size / 2);
        }
    }

    /// Moves the knob to follow the drag position (px, py) and records the
    /// event; see `spec_moving`.
    fn moving(&mut self, px: i64, py: i64)
        requires
            old(self).wf(),
            old(self).dragging,
            -COORD_MAX <= px <= COORD_MAX,
            -COORD_MAX <= py <= COORD_MAX,
        ensures
            *final(self) == old(self).spec_moving(px, py),
            final(self).wf(),
    {
        let radius: i64 = self.size / 2;
        let dx: i64 = px - self.center_x;
        let dy: i64 = py - self.center_y;
        proof {
            assert(dx * dx + dy * dy < 0x1000000000000000 && dx * dx + dy * dy >= 0
                && dx * dx >= 0 && dy * dy >= 0 && radius * radius <= COORD_MAX * COORD_MAX)
                by (nonlinear_arith)
                requires
                    -2 * COORD_MAX <= dx <= 2 * COORD_MAX,
                    -2 * COORD_MAX <= dy <= 2 * COORD_MAX,
                    0 <= radius <= COORD_MAX,
                    COORD_MAX == 268435456,
            ;
        }
        let d2: i64 = dx * dx + dy * dy;
        let root: i64 = isqrt(d2);
        let dist: i64;
        if d2 <= radius * radius {
            self.knob.x = px;
            self.knob.y = py;
            dist = root;
            proof {
                assert(root <= radius) by (nonlinear_arith)
                    requires
                        0 <= root,
                        0 <= radius,
                        root * root <= d2,
                        d2 <= radius * radius,
                ;
                assert(d2 < sq(radius + 1)) by (nonlinear_arith)
                    requires
                        0 <= radius,
                        d2 <= radius * radius,
                ;
            }
        } else {
            // The drag lies beyond the rim: root >= 1 and radius <= root.
            proof {
                assert(0 < root && radius <= root) by (nonlinear_arith)
                    requires
                        0 <= root,
                        0 <= radius,
                        radius * radius < d2,
                        root * root <= d2,
                        d2 < (root + 1) * (root + 1),
                ;
                lemma_scale_offset_bounds(dx as int, dy as int, radius as int, root as int);
            }
            let ax: i64 = if dx < 0 { -dx } else { dx };
            let ay: i64 = if dy < 0 { -dy } else { dy };
            proof {
                assert(ax * radius <= 2 * COORD_MAX * COORD_MAX && ax * radius >= 0 && ay * radius
                    <= 2 * COORD_MAX * COORD_MAX && ay * radius >= 0) by (nonlinear_arith)
                    requires
                        0 <= ax <= 2 * COORD_MAX,
                        0 <= ay <= 2 * COORD_MAX,
                        0 <= radius <= COORD_MAX,
                ;
            }
            let qx: i64 = (ax * radius) / root;
            let qy: i64 = (ay * radius) / root;
            let ox: i64 = if dx < 0 { -qx } else { qx };
            let oy: i64 = if dy < 0 { -qy } else { qy };
            proof {
                lemma_div_pos_is_pos(ax * radius, root as int);
                lemma_div_pos_is_pos(ay * radius, root as int);
                assert(ox == scale_offset(dx as int, radius as int, root as int));
                assert(oy == scale_offset(dy as int, radius as int, root as int));
            }
            self.knob.x = self.center_x + ox;
            self.knob.y = self.center_y + oy;
            dist = radius;
        }
        let intensity: i64;
        if radius > 0 {
            proof {
                assert(dist * INTENSITY_SCALE <= COORD_MAX * INTENSITY_SCALE && dist
                    * INTENSITY_SCALE >= 0) by (nonlinear_arith)
                    requires
                        0 <= dist <= COORD_MAX,
                        INTENSITY_SCALE == 1000,
                ;
            }
            intensity = (dist * INTENSITY_SCALE) / radius;
            proof {
                lemma_div_pos_is_pos(dist * INTENSITY_SCALE, radius as int);
                lemma_div_is_ordered(
                    dist * INTENSITY_SCALE,
                    (radius as int) * INTENSITY_SCALE,
                    radius as int,
                );
                assert((radius as int) * INTENSITY_SCALE == (radius as int) * (
                INTENSITY_SCALE as int));
                lemma_div_multiples_vanish(INTENSITY_SCALE as int, radius as int);
                assert(dist * INTENSITY_SCALE <= (radius as int) * INTENSITY_SCALE)
                    by (nonlinear_arith)
                    requires
                        0 <= dist <= radius,
                        INTENSITY_SCALE == 1000,
                ;
                assert(intensity <= INTENSITY_SCALE);
            }
        } else {
            intensity = 0;
        }
        let direction: JoystickDirection = if d2 == 0 {
            JoystickDirection::Idle
        } else {
            crate::direction::delta_direction(dx, dy)
        };
        self.event = JoystickEvent::new(direction, intensity, dx, dy);
        proof {
            assert(*self == old(self).spec_moving(px, py));
        }
    }

    /// Updates the drag state from this frame's touches, in order; see
    /// `spec_touch_step` for what each touch does.
    pub fn update_touch(&mut self, touches: &Vec<Touch>)
        requires
            old(self).wf(),
            touches_in_range(touches@),
        ensures
            *final(self) == old(self).spec_update_touch(touches@),
            final(self).wf(),
    {
        let ghost start: Joystick = *self;
        let ghost all: Seq<Touch> = touches@;
        proof {
            assert(all.skip(0) =~= all);
        }
        let n: usize = touches.len();
        let mut i: usize = 0;
        while i < n
            invariant
                self.wf(),
                i <= n,
                n == touches@.len(),
                touches@ == all,
                touches_in_range(all),
                self.spec_update_touch(all.skip(i as int)) == start.spec_update_touch(all),
            decreases n - i,
        {
            let ghost prev: Joystick = *self;
            let t: Touch = touches[i];
            match t.phase {
                TouchPhase::Started => {
                    if !self.dragging {
                        let radius: i64 = self.size / 2;
                        let dx: i64 = t.x - self.center_x;
                        let dy: i64 = t.y - self.center_y;
                        proof {
                            assert(0 <= dx * dx <= 4 * COORD_MAX * COORD_MAX && 0 <= dy * dy <= 4
                                * COORD_MAX * COORD_MAX && 0 <= radius * radius
                                <= COORD_MAX * COORD_MAX) by (nonlinear_arith)
                                requires
                                    -2 * COORD_MAX <= dx <= 2 * COORD_MAX,
                                    -2 * COORD_MAX <= dy <= 2 * COORD_MAX,
                                    0 <= radius <= COORD_MAX,
                                    COORD_MAX == 268435456,
                            ;
                        }
                        if dx * dx + dy * dy < radius * radius {
                            self.dragging = true;
                            self.touch_id = t.id;
                            self.moving(t.x, t.y);
                        }
                    }
                },
                TouchPhase::Moved => {
                    if self.dragging && t.id == self.touch_id {
                        self.moving(t.x, t.y);
                    }
                },
                TouchPhase::Ended | TouchPhase::Cancelled => {
                    if self.dragging && t.id == self.touch_id {
                        self.reset();
                    }
                },
                TouchPhase::Stationary => {},
            }
            proof {
                assert(*self == prev.spec_touch_step(t));
                assert(all.skip(i as int)[0] == t);
                assert(all.skip(i as int).drop_first() =~= all.skip(i as int + 1));
            }
            i = i + 1;
        }
        proof {
            assert(all.skip(n as int) =~= Seq::<Touch>::empty());
        }
    }

    /// Updates the drag state from the mouse; see `spec_update_mouse`.
    pub fn update_mouse(&mut self, mouse: MouseState)
        requires
            old(self).wf(),
            mouse_in_range(mouse),
        ensures
            *final(self) == old(self).spec_update_mouse(mouse),
            final(self).wf(),
    {
        if self.dragging {
            if mouse.down {
                self.moving(mouse.x, mouse.y);
            } else {
                self.reset();
            }
        } else if mouse.down {
            let radius: i64 = self.size / 2;
            let dx: i64 = mouse.x - self.center_x;
            let dy: i64 = mouse.y - self.center_y;
            proof {
                assert(0 <= dx * dx <= 4 * COORD_MAX * COORD_MAX && 0 <= dy * dy <= 4 * COORD_MAX
                    * COORD_MAX && 0 <= radius * radius <= COORD_MAX * COORD_MAX)
                    by (nonlinear_arith)
                    requires
                        -2 * COORD_MAX <= dx <= 2 * COORD_MAX,
                        -2 * COORD_MAX <= dy <= 2 * COORD_MAX,
                        0 <= radius <= COORD_MAX,
                        COORD_MAX == 268435456,
                ;
            }
            if dx * dx + dy * dy < radius * radius {
                self.dragging = true;
                self.moving(mouse.x, mouse.y);
            }
        }
    }

    /// Updates the joystick for one frame and returns the resulting event.
    ///
    /// Touches take priority: whenever at least one touch is reported the
    /// mouse is ignored, and with no touches the mouse drives the drag; see
    /// `spec_update`.
    pub fn update(&mut self, touches: &Vec<Touch>, mouse: MouseState) -> (event: JoystickEvent)
        requires
            old(self).wf(),
            touches_in_range(touches@),
            mouse_in_range(mouse),
        ensures
            *final(self) == old(self).spec_update(touches@, mouse),
            final(self).wf(),
            event == final(self).event,
    {
        if touches.len() == 0 {
            self.update_mouse(mouse);
        } else {
            self.update_touch(touches);
        }
        self.event
    }
}

/// While no drag is active and the frame offers nothing to start one — no
/// touches, and the mouse either up or not strictly inside the background
/// circle — an update leaves the joystick exactly as it is, with the knob on
/// the center and the neutral event; repeated such updates keep reporting it.
pub proof fn lemma_idle_update_fixed(j: Joystick, ts: Seq<Touch>, m: MouseState)
    requires
        j.wf(),
        !j.dragging,
        ts.len() == 0,
        !m.down || dist2(m.x - j.center_x, m.y - j.center_y) >= sq(j.size / 2),
    ensures
        j.spec_update(ts, m) == j,
        j.knob.x == j.center_x,
        j.knob.y == j.center_y,
        j.event == JoystickEvent::spec_default(),
{
}

/// Releasing the mouse button while a drag is active resets the joystick:
/// the knob returns exactly to the center, the drag ends, and the event is
/// neutral again.
pub proof fn lemma_mouse_release_resets(j: Joystick, m: MouseState)
    requires
        j.wf(),
        j.dragging,
        !m.down,
    ensures
        j.spec_update_mouse(m) == j.spec_reset(),
        j.spec_reset().knob.x == j.center_x,
        j.spec_reset().knob.y == j.center_y,
        !j.spec_reset().dragging,
        j.spec_reset().event == JoystickEvent::spec_default(),
{
}

/// An end or a cancellation of the bound touch resets the joystick the same
/// way the mouse release does.
pub proof fn lemma_touch_release_resets(j: Joystick, t: Touch)
    requires
        j.wf(),
        j.dragging,
        t.id == j.touch_id,
        t.phase == TouchPhase::Ended || t.phase == TouchPhase::Cancelled,
    ensures
        j.spec_touch_step(t) == j.spec_reset(),
        j.spec_reset().knob.x == j.center_x,
        j.spec_reset().knob.y == j.center_y,
        !j.spec_reset().dragging,
        j.spec_reset().event == JoystickEvent::spec_default(),
{
}

/// Once a drag is bound to one touch identifier, a touch carrying any other
/// identifier changes nothing, whatever its phase.
pub proof fn lemma_touch_isolation(j: Joystick, t: Touch)
    requires
        j.dragging,
        t.id != j.touch_id,
    ensures
        j.spec_touch_step(t) == j,
{
}

/// Once a drag is bound to one touch identifier, a whole frame of touches
/// carrying other identifiers changes nothing either.
pub proof fn lemma_touch_isolation_frame(j: Joystick, ts: Seq<Touch>)
    requires
        j.dragging,
        forall|k: int| 0 <= k < ts.len() ==> (#[trigger] ts[k]).id != j.touch_id,
    ensures
        j.spec_update_touch(ts) == j,
    decreases ts.len(),
{
    if ts.len() > 0 {
        lemma_touch_isolation(j, ts[0]);
        assert forall|k: int|
            0 <= k < ts.drop_first().len() implies (#[trigger] ts.drop_first()[k]).id
            != j.touch_id by {
            assert(ts.drop_first()[k] == ts[k + 1]);
        }
        lemma_touch_isolation_frame(j, ts.drop_first());
    }
}

/// One touch never changes the widget's frame: center, size, background and
/// the knob's radius stay as constructed.
proof fn lemma_touch_step_keeps_frame(j: Joystick, t: Touch)
    ensures
        j.spec_touch_step(t).center_x == j.center_x,
        j.spec_touch_step(t).center_y == j.center_y,
        j.spec_touch_step(t).size == j.size,
        j.spec_touch_step(t).background == j.background,
        j.spec_touch_step(t).knob.radius == j.knob.radius,
{
}

/// A frame of touches never changes the widget's frame either.
proof fn lemma_update_touch_keeps_frame(j: Joystick, ts: Seq<Touch>)
    ensures
        j.spec_update_touch(ts).center_x == j.center_x,
        j.spec_update_touch(ts).center_y == j.center_y,
        j.spec_update_touch(ts).size == j.size,
        j.spec_update_touch(ts).background == j.background,
        j.spec_update_touch(ts).knob.radius == j.knob.radius,
    decreases ts.len(),
{
    if ts.len() > 0 {
        lemma_touch_step_keeps_frame(j, ts[0]);
        lemma_update_touch_keeps_frame(j.spec_touch_step(ts[0]), ts.drop_first());
    }
}

/// An update never changes the widget's frame: center, size, background and
/// the knob's radius stay as constructed; only the knob's position, the drag
/// state and the event move.
pub proof fn lemma_update_keeps_frame(j: Joystick, ts: Seq<Touch>, m: MouseState)
    ensures
        j.spec_update(ts, m).center_x == j.center_x,
        j.spec_update(ts, m).center_y == j.center_y,
        j.spec_update(ts, m).size == j.size,
        j.spec_update(ts, m).background == j.background,
        j.spec_update(ts, m).knob.radius == j.knob.radius,
{
    if ts.len() > 0 {
        lemma_update_touch_keeps_frame(j, ts);
    }
}

/// A drag at or beyond the background's rim is clamped: the recorded
/// intensity is exactly the full scale, and the knob lands within one
/// coordinate unit of the rim.
pub proof fn lemma_clamped_drag_full_intensity(j: Joystick, px: i64, py: i64)
    requires
        j.wf(),
        j.dragging,
        -COORD_MAX <= px <= COORD_MAX,
        -COORD_MAX <= py <= COORD_MAX,
        j.size / 2 > 0,
        dist2(px - j.center_x, py - j.center_y) >= sq(j.size / 2),
    ensures
        j.spec_moving(px, py).event.intensity == INTENSITY_SCALE,
        dist2(
            j.spec_moving(px, py).knob.x - j.center_x,
            j.spec_moving(px, py).knob.y - j.center_y,
        ) < sq(j.size / 2 + 1),
{
    let r = j.size / 2;
    let dx = px - j.center_x;
    let dy = py - j.center_y;
    let d2 = dist2(dx, dy);
    crate::geometry::lemma_sqrt_floor_props(d2);
    let root = sqrt_floor(d2);
    if d2 <= r * r {
        assert(d2 == r * r);
        assert(d2 < (r + 1) * (r + 1)) by (nonlinear_arith)
            requires
                0 <= r,
                d2 == r * r,
        ;
        lemma_sqrt_floor_char(d2, r);
        lemma_div_multiples_vanish(INTENSITY_SCALE as int, r);
    } else {
        assert(0 < root && r <= root) by (nonlinear_arith)
            requires
                0 <= root,
                0 < r,
                r * r < d2,
                sq(root) == root * root,
                sq(root + 1) == (root + 1) * (root + 1),
                root * root <= d2,
                d2 < (root + 1) * (root + 1),
        ;
        lemma_scale_offset_bounds(dx, dy, r, root);
        lemma_div_multiples_vanish(INTENSITY_SCALE as int, r);
    }
}

} // verus!

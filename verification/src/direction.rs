//! The eight-way compass classification of a drag.

use vstd::prelude::*;

verus! {

use crate::COORD_MAX;

/// The eight compass directions a drag can point in, plus the neutral `Idle`
/// state reported while the knob rests at the center.
///
/// Angle 0 lies on the positive x axis. Because the screen's y axis grows
/// downward, positive angles rotate clockwise on the screen, so `Down` is the
/// sector around +90 degrees.
#[derive(Clone, Copy, Debug, PartialEq, Eq, Structural)]
pub enum JoystickDirection {
    Up,
    UpLeft,
    Left,
    DownLeft,
    Down,
    DownRight,
    Right,
    UpRight,
    Idle,
}

/// The compass sector an angle falls in, the angle given in millidegrees
/// (thousandths of a degree).
///
/// The circle is split into eight 45-degree sectors centered on the cardinal
/// and diagonal directions; boundaries lie at odd multiples of 22.5 degrees
/// and belong to the sector whose upper bound they are. Angles outside the
/// half-open range (-180, 180] degrees fall back to `Idle`.
pub open spec fn spec_from_degrees(millidegrees: int) -> JoystickDirection {
    if -22500 < millidegrees <= 22500 {
        JoystickDirection::Right
    } else if 22500 < millidegrees <= 67500 {
        JoystickDirection::DownRight
    } else if 67500 < millidegrees <= 112500 {
        JoystickDirection::Down
    } else if 112500 < millidegrees <= 157500 {
        JoystickDirection::DownLeft
    } else if 157500 < millidegrees <= 180000 || -180000 < millidegrees <= -157500 {
        JoystickDirection::Left
    } else if -157500 < millidegrees <= -112500 {
        JoystickDirection::UpLeft
    } else if -112500 < millidegrees <= -67500 {
        JoystickDirection::Up
    } else if -67500 < millidegrees <= -22500 {
        JoystickDirection::UpRight
    } else {
        JoystickDirection::Idle
    }
}

/// The compass sector the offset (dx, dy) points into, decided by exact
/// integer comparisons.
///
/// With s = |dx| + |dy|, the offset lies within 22.5 degrees of the x axis
/// exactly when s^2 < 2*dx^2, and within 22.5 degrees of the y axis exactly
/// when s^2 < 2*dy^2; otherwise it lies in a diagonal sector picked by the
/// signs. These tests agree with the millidegree sectors of
/// `spec_from_degrees` applied to the offset's angle: a sector boundary has
/// the irrational slope tan(22.5 degrees), so no integer offset lies on one.
/// The zero offset, whose angle is conventionally 0, maps to `Right`; callers
/// that want `Idle` for it test for zero themselves.
pub open spec fn spec_delta_direction(dx: int, dy: int) -> JoystickDirection {
    let ax = if dx < 0 { -dx } else { dx };
    let ay = if dy < 0 { -dy } else { dy };
    let s = ax + ay;
    if dx == 0 && dy == 0 {
        JoystickDirection::Right
    } else if s * s < 2 * ax * ax {
        if dx > 0 {
            JoystickDirection::Right
        } else {
            JoystickDirection::Left
        }
    } else if s * s < 2 * ay * ay {
        if dy > 0 {
            JoystickDirection::Down
        } else {
            JoystickDirection::Up
        }
    } else if dx > 0 && dy > 0 {
        JoystickDirection::DownRight
    } else if dx < 0 && dy > 0 {
        JoystickDirection::DownLeft
    } else if dx < 0 && dy < 0 {
        JoystickDirection::UpLeft
    } else {
        JoystickDirection::UpRight
    }
}

/// The compass sector the offset (dx, dy) points into; see
/// `spec_delta_direction`.
pub fn delta_direction(dx: i64, dy: i64) -> (direction: JoystickDirection)
    requires
        -2 * COORD_MAX <= dx <= 2 * COORD_MAX,
        -2 * COORD_MAX <= dy <= 2 * COORD_MAX,
    ensures
        direction == spec_delta_direction(dx as int, dy as int),
{
    let ax: i64 = if dx < 0 { -dx } else { dx };
    let ay: i64 = if dy < 0 { -dy } else { dy };
    proof {
        assert((2 * ax) * ax <= 8 * COORD_MAX * COORD_MAX && (2 * ay) * ay <= 8 * COORD_MAX
            * COORD_MAX && (ax + ay) * (ax + ay) <= 16 * COORD_MAX * COORD_MAX && 0 <= (2 * ax)
            * ax && 0 <= (2 * ay) * ay) by (nonlinear_arith)
            requires
                0 <= ax <= 2 * COORD_MAX,
                0 <= ay <= 2 * COORD_MAX,
                COORD_MAX == 268435456,
        ;
    }
    let s: i64 = ax + ay;
    if dx == 0 && dy == 0 {
        JoystickDirection::Right
    } else if s * s < 2 * ax * ax {
        if dx > 0 {
            JoystickDirection::Right
        } else {
            JoystickDirection::Left
        }
    } else if s * s < 2 * ay * ay {
        if dy > 0 {
            JoystickDirection::Down
        } else {
            JoystickDirection::Up
        }
    } else if dx > 0 && dy > 0 {
        JoystickDirection::DownRight
    } else if dx < 0 && dy > 0 {
        JoystickDirection::DownLeft
    } else if dx < 0 && dy < 0 {
        JoystickDirection::UpLeft
    } else {
        JoystickDirection::UpRight
    }
}

/// The unit-or-diagonal step vector of a direction; see
/// `JoystickDirection::to_local`.
pub open spec fn spec_to_local(direction: JoystickDirection) -> (i64, i64) {
    match direction {
        JoystickDirection::Right => (1i64, 0i64),
        JoystickDirection::DownRight => (1i64, 1i64),
        JoystickDirection::Down => (0i64, 1i64),
        JoystickDirection::DownLeft => (-1i64, 1i64),
        JoystickDirection::Left => (-1i64, 0i64),
        JoystickDirection::UpLeft => (-1i64, -1i64),
        JoystickDirection::Up => (0i64, -1i64),
        JoystickDirection::UpRight => (1i64, -1i64),
        JoystickDirection::Idle => (0i64, 0i64),
    }
}

impl JoystickDirection {
    /// The compass sector an angle in millidegrees falls in.
    ///
    /// Angle 0 lies on the positive x axis and positive angles rotate
    /// clockwise on the screen; see `spec_from_degrees` for the sector table.
    pub fn from_degrees(millidegrees: i64) -> (direction: Self)
        ensures
            direction == spec_from_degrees(millidegrees as int),
    {
        if -22500 < millidegrees && millidegrees <= 22500 {
            Self::Right
        } else if 22500 < millidegrees && millidegrees <= 67500 {
            Self::DownRight
        } else if 67500 < millidegrees && millidegrees <= 112500 {
            Self::Down
        } else if 112500 < millidegrees && millidegrees <= 157500 {
            Self::DownLeft
        } else if (157500 < millidegrees && millidegrees <= 180000) || (-180000 < millidegrees
            && millidegrees <= -157500) {
            Self::Left
        } else if -157500 < millidegrees && millidegrees <= -112500 {
            Self::UpLeft
        } else if -112500 < millidegrees && millidegrees <= -67500 {
            Self::Up
        } else if -67500 < millidegrees && millidegrees <= -22500 {
            Self::UpRight
        } else {
            Self::Idle
        }
    }

    /// The direction as a step vector with components in {-1, 0, 1}.
    ///
    /// `Idle` maps to (0, 0); diagonals are deliberately not normalized, so
    /// `DownRight` maps to (1, 1) of magnitude sqrt 2, and a caller that
    /// multiplies the vector by intensity and speed moves faster along
    /// diagonals.
    pub fn to_local(&self) -> (local: (i64, i64))
        ensures
            local == spec_to_local(*self),
    {
        match self {
            Self::Right => (1, 0),
            Self::DownRight => (1, 1),
            Self::Down => (0, 1),
            Self::DownLeft => (-1, 1),
            Self::Left => (-1, 0),
            Self::UpLeft => (-1, -1),
            Self::Up => (0, -1),
            Self::UpRight => (1, -1),
            Self::Idle => (0, 0),
        }
    }
}

/// Every angle within the half-open range (-180, 180] degrees names one of
/// the eight compass sectors: the `Idle` fallback of `spec_from_degrees` is
/// reached only by angles outside that range.
pub proof fn lemma_from_degrees_total(millidegrees: int)
    requires
        -180000 < millidegrees <= 180000,
    ensures
        spec_from_degrees(millidegrees) != JoystickDirection::Idle,
{
}

/// `to_local` is a pure lookup with both components in {-1, 0, 1}, and only
/// `Idle` and the two purely vertical or horizontal directions zero a
/// component; `Idle` alone maps to (0, 0).
pub proof fn lemma_to_local_components(direction: JoystickDirection)
    ensures
        -1 <= spec_to_local(direction).0 <= 1,
        -1 <= spec_to_local(direction).1 <= 1,
        (spec_to_local(direction) == (0i64, 0i64)) <==> direction == JoystickDirection::Idle,
{
}

/// On the cardinal axes and the exact diagonals, the sector picked from an
/// offset agrees with the sector picked from the offset's angle in
/// millidegrees.
pub proof fn lemma_delta_direction_axes(k: int)
    requires
        k > 0,
    ensures
        spec_delta_direction(k, 0) == spec_from_degrees(0),
        spec_delta_direction(k, k) == spec_from_degrees(45000),
        spec_delta_direction(0, k) == spec_from_degrees(90000),
        spec_delta_direction(-k, k) == spec_from_degrees(135000),
        spec_delta_direction(-k, 0) == spec_from_degrees(180000),
        spec_delta_direction(-k, -k) == spec_from_degrees(-135000),
        spec_delta_direction(0, -k) == spec_from_degrees(-90000),
        spec_delta_direction(k, -k) == spec_from_degrees(-45000),
{
    assert(k * k < 2 * k * k && (k + k) * (k + k) >= 2 * k * k) by (nonlinear_arith)
        requires
            k > 0,
    ;
}

} // verus!

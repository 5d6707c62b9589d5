use virtual_joystick::{
    Joystick, JoystickDirection, JoystickEvent, MouseState, Touch, TouchPhase, INTENSITY_SCALE,
};

fn mouse(x: i64, y: i64, down: bool) -> MouseState {
    MouseState { x, y, down }
}

fn touch(id: u64, x: i64, y: i64, phase: TouchPhase) -> Touch {
    Touch { id, x, y, phase }
}

fn no_touches() -> Vec<Touch> {
    Vec::new()
}

#[test]
fn new_derives_element_geometry() {
    let j = Joystick::new(100, 100, 100);
    assert_eq!(j.background.x, 100);
    assert_eq!(j.background.y, 100);
    assert_eq!(j.background.radius, 50);
    assert_eq!(j.knob.x, 100);
    assert_eq!(j.knob.y, 100);
    assert_eq!(j.knob.radius, 25);
    assert!(!j.dragging);
    assert_eq!(j.event, JoystickEvent::default());
}

#[test]
fn from_custom_elements_takes_knob_size() {
    let j = Joystick::from_custom_elements(100, 200, 50, 32);
    assert_eq!(j.background.radius, 25);
    assert_eq!(j.knob.radius, 16);
    assert_eq!(j.knob.x, 100);
    assert_eq!(j.knob.y, 200);
    assert!(!j.dragging);
}

#[test]
fn odd_size_rounds_radius_down() {
    let j = Joystick::new(0, 0, 101);
    assert_eq!(j.background.radius, 50);
    assert_eq!(j.knob.radius, 25);
}

#[test]
fn default_event_is_neutral() {
    let e = JoystickEvent::default();
    assert_eq!(e.direction, JoystickDirection::Idle);
    assert_eq!(e.intensity, 0);
    assert_eq!(e.delta_x, 0);
    assert_eq!(e.delta_y, 0);
}

#[test]
fn idle_updates_are_idempotent() {
    let mut j = Joystick::new(100, 100, 100);
    for _ in 0..5 {
        let e = j.update(&no_touches(), mouse(400, 400, false));
        assert_eq!(e, JoystickEvent::default());
        assert_eq!((j.knob.x, j.knob.y), (100, 100));
        assert!(!j.dragging);
    }
    // A held button outside the circle starts nothing either.
    for _ in 0..5 {
        let e = j.update(&no_touches(), mouse(400, 400, true));
        assert_eq!(e, JoystickEvent::default());
        assert_eq!((j.knob.x, j.knob.y), (100, 100));
        assert!(!j.dragging);
    }
}

#[test]
fn press_on_exact_rim_does_not_start_drag() {
    // The capture test is strict: a press at distance exactly size/2 from
    // the center stays outside the widget.
    let mut j = Joystick::new(100, 100, 100);
    let e = j.update(&no_touches(), mouse(150, 100, true));
    assert!(!j.dragging);
    assert_eq!(e, JoystickEvent::default());
}

#[test]
fn press_inside_starts_drag() {
    let mut j = Joystick::new(100, 100, 100);
    let e = j.update(&no_touches(), mouse(110, 110, true));
    assert!(j.dragging);
    assert_eq!(e.direction, JoystickDirection::DownRight);
    // Distance sqrt(200) rounds down to 14; 14 * 1000 / 50 == 280.
    assert_eq!(e.intensity, 280);
    assert_eq!((e.delta_x, e.delta_y), (10, 10));
    assert_eq!((j.knob.x, j.knob.y), (110, 110));
}

#[test]
fn drag_to_rim_reports_full_intensity_right() {
    let mut j = Joystick::new(100, 100, 100);
    j.update(&no_touches(), mouse(120, 100, true));
    assert!(j.dragging);
    let e = j.update(&no_touches(), mouse(150, 100, true));
    assert_eq!(e.direction, JoystickDirection::Right);
    assert_eq!(e.intensity, INTENSITY_SCALE);
    assert_eq!((e.delta_x, e.delta_y), (50, 0));
    assert_eq!((j.knob.x, j.knob.y), (150, 100));
    let angle = (e.delta_y as f64).atan2(e.delta_x as f64);
    assert_eq!(angle, 0.0);
}

#[test]
fn drag_straight_down_reports_full_intensity_down() {
    let mut j = Joystick::new(100, 100, 100);
    j.update(&no_touches(), mouse(100, 120, true));
    let e = j.update(&no_touches(), mouse(100, 150, true));
    assert_eq!(e.direction, JoystickDirection::Down);
    assert_eq!(e.intensity, INTENSITY_SCALE);
    assert_eq!((e.delta_x, e.delta_y), (0, 50));
    assert_eq!((j.knob.x, j.knob.y), (100, 150));
    let angle = (e.delta_y as f64).atan2(e.delta_x as f64);
    assert_eq!(angle, std::f64::consts::FRAC_PI_2);
}

#[test]
fn short_diagonal_drag_reports_partial_intensity() {
    let mut j = Joystick::new(100, 100, 100);
    let e = j.update(&no_touches(), mouse(110, 110, true));
    assert_eq!(e.direction, JoystickDirection::DownRight);
    assert_eq!(e.intensity, 280);
    let angle = (e.delta_y as f64).atan2(e.delta_x as f64);
    assert!((angle - std::f64::consts::FRAC_PI_4).abs() < 1e-12);
}

#[test]
fn drag_beyond_rim_is_clamped() {
    let mut j = Joystick::new(100, 100, 100);
    j.update(&no_touches(), mouse(110, 110, true));
    let e = j.update(&no_touches(), mouse(200, 200, true));
    assert_eq!(e.intensity, INTENSITY_SCALE);
    assert_eq!(e.direction, JoystickDirection::DownRight);
    // The raw offset is kept for the angle even when the knob is clamped.
    assert_eq!((e.delta_x, e.delta_y), (100, 100));
    // sqrt(20000) rounds down to 141; 100 * 50 / 141 == 35.
    assert_eq!((j.knob.x, j.knob.y), (135, 135));
    let kx = j.knob.x - 100;
    let ky = j.knob.y - 100;
    assert!(kx * kx + ky * ky <= 51 * 51 - 1);
}

#[test]
fn mouse_release_resets_to_center() {
    let mut j = Joystick::new(100, 100, 100);
    j.update(&no_touches(), mouse(130, 120, true));
    assert!(j.dragging);
    let e = j.update(&no_touches(), mouse(130, 120, false));
    assert!(!j.dragging);
    assert_eq!(e, JoystickEvent::default());
    assert_eq!((j.knob.x, j.knob.y), (100, 100));
    // The next update still reports the neutral event.
    let e2 = j.update(&no_touches(), mouse(130, 120, false));
    assert_eq!(e2, JoystickEvent::default());
}

#[test]
fn touch_started_inside_binds_drag() {
    let mut j = Joystick::new(100, 100, 100);
    let frame = vec![touch(7, 110, 110, TouchPhase::Started)];
    let e = j.update(&frame, mouse(0, 0, false));
    assert!(j.dragging);
    assert_eq!(e.direction, JoystickDirection::DownRight);
    assert_eq!(e.intensity, 280);
}

#[test]
fn touch_started_outside_is_ignored() {
    let mut j = Joystick::new(100, 100, 100);
    let frame = vec![touch(7, 300, 300, TouchPhase::Started)];
    let e = j.update(&frame, mouse(0, 0, false));
    assert!(!j.dragging);
    assert_eq!(e, JoystickEvent::default());
}

#[test]
fn touch_moved_with_bound_id_moves_knob() {
    let mut j = Joystick::new(100, 100, 100);
    j.update(&vec![touch(7, 110, 110, TouchPhase::Started)], mouse(0, 0, false));
    let e = j.update(&vec![touch(7, 100, 150, TouchPhase::Moved)], mouse(0, 0, false));
    assert_eq!(e.direction, JoystickDirection::Down);
    assert_eq!(e.intensity, INTENSITY_SCALE);
    assert_eq!((j.knob.x, j.knob.y), (100, 150));
}

#[test]
fn touch_other_id_changes_nothing() {
    let mut j = Joystick::new(100, 100, 100);
    let before = j.update(&vec![touch(7, 110, 110, TouchPhase::Started)], mouse(0, 0, false));
    // Moves, ends and new starts of other contacts leave the drag alone.
    let frame = vec![
        touch(9, 100, 150, TouchPhase::Moved),
        touch(9, 100, 150, TouchPhase::Ended),
        touch(9, 110, 90, TouchPhase::Started),
        touch(9, 110, 90, TouchPhase::Stationary),
    ];
    let e = j.update(&frame, mouse(0, 0, false));
    assert!(j.dragging);
    assert_eq!(e, before);
    assert_eq!((j.knob.x, j.knob.y), (110, 110));
    // The bound contact still drives the knob afterwards.
    let e2 = j.update(&vec![touch(7, 120, 100, TouchPhase::Moved)], mouse(0, 0, false));
    assert_eq!(e2.direction, JoystickDirection::Right);
}

#[test]
fn touch_ended_with_bound_id_resets() {
    let mut j = Joystick::new(100, 100, 100);
    j.update(&vec![touch(7, 110, 110, TouchPhase::Started)], mouse(0, 0, false));
    let e = j.update(&vec![touch(7, 110, 110, TouchPhase::Ended)], mouse(0, 0, false));
    assert!(!j.dragging);
    assert_eq!(e, JoystickEvent::default());
    assert_eq!((j.knob.x, j.knob.y), (100, 100));
}

#[test]
fn touch_cancelled_with_bound_id_resets() {
    let mut j = Joystick::new(100, 100, 100);
    j.update(&vec![touch(7, 110, 110, TouchPhase::Started)], mouse(0, 0, false));
    let e = j.update(&vec![touch(7, 110, 110, TouchPhase::Cancelled)], mouse(0, 0, false));
    assert!(!j.dragging);
    assert_eq!(e, JoystickEvent::default());
}

#[test]
fn touches_take_priority_over_mouse() {
    let mut j = Joystick::new(100, 100, 100);
    // A held mouse button inside the circle is ignored while any touch is
    // reported, even an unrelated stationary one.
    let frame = vec![touch(3, 400, 400, TouchPhase::Stationary)];
    let e = j.update(&frame, mouse(110, 110, true));
    assert!(!j.dragging);
    assert_eq!(e, JoystickEvent::default());
}

#[test]
fn one_frame_may_start_move_and_end_a_touch() {
    let mut j = Joystick::new(100, 100, 100);
    let frame = vec![
        touch(5, 110, 110, TouchPhase::Started),
        touch(5, 150, 100, TouchPhase::Moved),
    ];
    let e = j.update(&frame, mouse(0, 0, false));
    assert!(j.dragging);
    assert_eq!(e.direction, JoystickDirection::Right);
    assert_eq!(e.intensity, INTENSITY_SCALE);
    let frame2 = vec![touch(5, 150, 100, TouchPhase::Ended)];
    let e2 = j.update(&frame2, mouse(0, 0, false));
    assert_eq!(e2, JoystickEvent::default());
}

#[test]
fn degenerate_size_zero_never_drags() {
    let mut j = Joystick::new(100, 100, 0);
    let e = j.update(&no_touches(), mouse(100, 100, true));
    assert!(!j.dragging);
    assert_eq!(e, JoystickEvent::default());
    let e2 = j.update(&vec![touch(1, 100, 100, TouchPhase::Started)], mouse(0, 0, false));
    assert!(!j.dragging);
    assert_eq!(e2, JoystickEvent::default());
}

#[test]
fn tiny_drag_keeps_direction_but_truncates_intensity() {
    // One unit from the center of a wide joystick: the truncated intensity
    // is 0 but the direction still points where the drag does.
    let mut j = Joystick::new(0, 0, 10000);
    let e = j.update(&no_touches(), mouse(1, 0, true));
    assert!(j.dragging);
    assert_eq!(e.direction, JoystickDirection::Right);
    assert_eq!(e.intensity, 0);
    assert_eq!((e.delta_x, e.delta_y), (1, 0));
}

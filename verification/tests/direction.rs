use virtual_joystick::direction::delta_direction;
use virtual_joystick::geometry::isqrt;
use virtual_joystick::JoystickDirection;

#[test]
fn from_degrees_sector_centers() {
    assert_eq!(JoystickDirection::from_degrees(0), JoystickDirection::Right);
    assert_eq!(JoystickDirection::from_degrees(45000), JoystickDirection::DownRight);
    assert_eq!(JoystickDirection::from_degrees(90000), JoystickDirection::Down);
    assert_eq!(JoystickDirection::from_degrees(135000), JoystickDirection::DownLeft);
    assert_eq!(JoystickDirection::from_degrees(180000), JoystickDirection::Left);
    assert_eq!(JoystickDirection::from_degrees(-135000), JoystickDirection::UpLeft);
    assert_eq!(JoystickDirection::from_degrees(-90000), JoystickDirection::Up);
    assert_eq!(JoystickDirection::from_degrees(-45000), JoystickDirection::UpRight);
}

#[test]
fn from_degrees_boundaries_belong_to_lower_sector() {
    // A boundary angle belongs to the sector whose upper bound it is.
    assert_eq!(JoystickDirection::from_degrees(22500), JoystickDirection::Right);
    assert_eq!(JoystickDirection::from_degrees(22501), JoystickDirection::DownRight);
    assert_eq!(JoystickDirection::from_degrees(67500), JoystickDirection::DownRight);
    assert_eq!(JoystickDirection::from_degrees(67501), JoystickDirection::Down);
    assert_eq!(JoystickDirection::from_degrees(112500), JoystickDirection::Down);
    assert_eq!(JoystickDirection::from_degrees(112501), JoystickDirection::DownLeft);
    assert_eq!(JoystickDirection::from_degrees(157500), JoystickDirection::DownLeft);
    assert_eq!(JoystickDirection::from_degrees(157501), JoystickDirection::Left);
    assert_eq!(JoystickDirection::from_degrees(-157500), JoystickDirection::Left);
    assert_eq!(JoystickDirection::from_degrees(-157499), JoystickDirection::UpLeft);
    assert_eq!(JoystickDirection::from_degrees(-112500), JoystickDirection::UpLeft);
    assert_eq!(JoystickDirection::from_degrees(-112499), JoystickDirection::Up);
    assert_eq!(JoystickDirection::from_degrees(-67500), JoystickDirection::Up);
    assert_eq!(JoystickDirection::from_degrees(-67499), JoystickDirection::UpRight);
    assert_eq!(JoystickDirection::from_degrees(-22500), JoystickDirection::UpRight);
    assert_eq!(JoystickDirection::from_degrees(-22499), JoystickDirection::Right);
}

#[test]
fn from_degrees_example_angle() {
    // 153.5 degrees lies in the DownLeft sector.
    assert_eq!(JoystickDirection::from_degrees(153500), JoystickDirection::DownLeft);
}

#[test]
fn from_degrees_outside_half_turn_is_idle() {
    assert_eq!(JoystickDirection::from_degrees(180001), JoystickDirection::Idle);
    assert_eq!(JoystickDirection::from_degrees(-180000), JoystickDirection::Idle);
    assert_eq!(JoystickDirection::from_degrees(360000), JoystickDirection::Idle);
    assert_eq!(JoystickDirection::from_degrees(i64::MIN + 1), JoystickDirection::Idle);
}

#[test]
fn to_local_table() {
    assert_eq!(JoystickDirection::Right.to_local(), (1, 0));
    assert_eq!(JoystickDirection::DownRight.to_local(), (1, 1));
    assert_eq!(JoystickDirection::Down.to_local(), (0, 1));
    assert_eq!(JoystickDirection::DownLeft.to_local(), (-1, 1));
    assert_eq!(JoystickDirection::Left.to_local(), (-1, 0));
    assert_eq!(JoystickDirection::UpLeft.to_local(), (-1, -1));
    assert_eq!(JoystickDirection::Up.to_local(), (0, -1));
    assert_eq!(JoystickDirection::UpRight.to_local(), (1, -1));
    assert_eq!(JoystickDirection::Idle.to_local(), (0, 0));
}

#[test]
fn to_local_components_bounded() {
    let all = [
        JoystickDirection::Up,
        JoystickDirection::UpLeft,
        JoystickDirection::Left,
        JoystickDirection::DownLeft,
        JoystickDirection::Down,
        JoystickDirection::DownRight,
        JoystickDirection::Right,
        JoystickDirection::UpRight,
        JoystickDirection::Idle,
    ];
    for d in all {
        let (x, y) = d.to_local();
        assert!((-1..=1).contains(&x));
        assert!((-1..=1).contains(&y));
        assert_eq!((x, y) == (0, 0), d == JoystickDirection::Idle);
    }
}

#[test]
fn delta_direction_cardinals_and_diagonals() {
    assert_eq!(delta_direction(1, 0), JoystickDirection::Right);
    assert_eq!(delta_direction(10, 10), JoystickDirection::DownRight);
    assert_eq!(delta_direction(0, 5), JoystickDirection::Down);
    assert_eq!(delta_direction(-4, 4), JoystickDirection::DownLeft);
    assert_eq!(delta_direction(-5, 0), JoystickDirection::Left);
    assert_eq!(delta_direction(-3, -3), JoystickDirection::UpLeft);
    assert_eq!(delta_direction(0, -1), JoystickDirection::Up);
    assert_eq!(delta_direction(7, -7), JoystickDirection::UpRight);
}

#[test]
fn delta_direction_near_sector_boundary() {
    // atan2(12, 29) is about 22.48 degrees, just inside the Right sector;
    // atan2(13, 29) is about 24.14 degrees, inside DownRight.
    assert_eq!(delta_direction(29, 12), JoystickDirection::Right);
    assert_eq!(delta_direction(29, 13), JoystickDirection::DownRight);
    // The same just below the axis.
    assert_eq!(delta_direction(29, -12), JoystickDirection::Right);
    assert_eq!(delta_direction(29, -13), JoystickDirection::UpRight);
}

#[test]
fn delta_direction_agrees_with_float_atan2() {
    for dx in -25i64..=25 {
        for dy in -25i64..=25 {
            if dx == 0 && dy == 0 {
                continue;
            }
            let degrees = (dy as f64).atan2(dx as f64).to_degrees();
            let millidegrees = (degrees * 1000.0).round() as i64;
            let by_angle = JoystickDirection::from_degrees(millidegrees);
            // Rounding to millidegrees cannot cross a sector boundary here:
            // no angle of this grid lies within half a millidegree of one.
            assert_eq!(delta_direction(dx, dy), by_angle, "delta ({dx}, {dy})");
        }
    }
}

#[test]
fn isqrt_small_values() {
    assert_eq!(isqrt(0), 0);
    assert_eq!(isqrt(1), 1);
    assert_eq!(isqrt(2), 1);
    assert_eq!(isqrt(3), 1);
    assert_eq!(isqrt(4), 2);
    assert_eq!(isqrt(200), 14);
    assert_eq!(isqrt(2500), 50);
    assert_eq!(isqrt(2600), 50);
    assert_eq!(isqrt(2601), 51);
}

#[test]
fn isqrt_large_values() {
    let n: i64 = 1073741823;
    assert_eq!(isqrt(n * n), n);
    assert_eq!(isqrt(n * n + 2 * n), n);
}

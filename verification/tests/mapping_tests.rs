use omnibench::stepper::{
    drive_command, joy_to_hz_signed, map_joy_to_hz, DriveCommand, StepperDirection,
};

/// The axis mapping as floating-point arithmetic computes it.
fn float_axis(mv: u16, zero: u16, clip: u16, min: u16, max: u16) -> i8 {
    let mv = mv as f32;
    let zero = zero as f32;
    let clip = clip as f32;
    let normalized = if mv < zero - clip {
        (mv - min as f32) / (zero - clip - min as f32) - 1.0
    } else if mv > zero + clip {
        (mv - (zero + clip)) / (max as f32 - (zero + clip))
    } else {
        0.0
    };
    (normalized * 127.0).round().clamp(-127.0, 128.0) as i8
}

fn float_joy_to_hz(abs_value: u8) -> u32 {
    let t = abs_value as f32 / 127.0;
    (20.0f32 + t * (20_000.0f32 - 20.0f32)) as u32
}

#[test]
fn joystick_axis_agrees_with_float_arithmetic() {
    for mv in 0..=u16::MAX {
        assert_eq!(
            omnibench::joystick::map_mv_to_i8(mv),
            float_axis(mv, 1563, 50, 0, 3061),
            "mv = {mv}"
        );
    }
}

#[test]
fn board_axis_agrees_with_float_arithmetic() {
    for mv in 0..=u16::MAX {
        assert_eq!(
            omnibench::board::map_mv_to_i8(mv),
            float_axis(mv, 1635, 60, 0, 3061),
            "mv = {mv}"
        );
    }
}

#[test]
fn joystick_axis_values() {
    let map_mv_to_i8 = omnibench::joystick::map_mv_to_i8;
    assert_eq!(map_mv_to_i8(0), -127);
    assert_eq!(map_mv_to_i8(1513), 0);
    assert_eq!(map_mv_to_i8(1563), 0);
    assert_eq!(map_mv_to_i8(1613), 0);
    assert_eq!(map_mv_to_i8(1512), 0);
    assert_eq!(map_mv_to_i8(1500), -1);
    assert_eq!(map_mv_to_i8(2337), 64);
    assert_eq!(map_mv_to_i8(3061), 127);
    assert_eq!(map_mv_to_i8(u16::MAX), 127);
}

#[test]
fn board_axis_values() {
    let map_mv_to_i8 = omnibench::board::map_mv_to_i8;
    assert_eq!(map_mv_to_i8(0), -127);
    assert_eq!(map_mv_to_i8(1635), 0);
    assert_eq!(map_mv_to_i8(1575), 0);
    assert_eq!(map_mv_to_i8(1695), 0);
    assert_eq!(map_mv_to_i8(2378), 64);
    assert_eq!(map_mv_to_i8(3061), 127);
    assert_eq!(map_mv_to_i8(4000), 127);
}

#[test]
fn axis_is_monotone_and_in_range() {
    let mut prev = omnibench::joystick::map_mv_to_i8(0);
    for mv in 1..=u16::MAX {
        let v = omnibench::joystick::map_mv_to_i8(mv);
        assert!(v >= prev);
        assert!((-127..=127).contains(&v));
        prev = v;
    }
}

#[test]
fn joy_to_hz_agrees_with_float_arithmetic() {
    for abs_value in 0..=u8::MAX {
        assert_eq!(map_joy_to_hz(abs_value), float_joy_to_hz(abs_value), "abs = {abs_value}");
    }
}

#[test]
fn joy_to_hz_values() {
    assert_eq!(map_joy_to_hz(0), 20);
    assert_eq!(map_joy_to_hz(1), 177);
    assert_eq!(map_joy_to_hz(64), 10088);
    assert_eq!(map_joy_to_hz(127), 20_000);
    assert_eq!(map_joy_to_hz(128), 20_157);
}

#[test]
fn signed_speed() {
    assert_eq!(joy_to_hz_signed(0), 0);
    assert_eq!(joy_to_hz_signed(127), 20_000);
    assert_eq!(joy_to_hz_signed(-127), -20_000);
    assert_eq!(joy_to_hz_signed(-1), -177);
    assert_eq!(joy_to_hz_signed(-128), -20_157);
    for v in -127..=127i8 {
        assert_eq!(joy_to_hz_signed(-v), -joy_to_hz_signed(v));
    }
}

#[test]
fn drive_commands() {
    assert_eq!(drive_command(0), DriveCommand::Stop);
    assert_eq!(
        drive_command(5),
        DriveCommand::Run { direction: StepperDirection::Forward, hz: map_joy_to_hz(5) }
    );
    assert_eq!(
        drive_command(-127),
        DriveCommand::Run { direction: StepperDirection::Reverse, hz: 20_000 }
    );
}

#[test]
fn direction_levels() {
    assert!(StepperDirection::Forward.level_is_high());
    assert!(!StepperDirection::Reverse.level_is_high());
}

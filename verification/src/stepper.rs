//! Speed commands for the bench's stepper motor.

use vstd::prelude::*;

verus! {

/// Direction in which the stepper turns.
#[derive(Clone, Copy, Debug, PartialEq, Eq, Structural)]
pub enum StepperDirection {
    Forward,
    Reverse,
}

impl StepperDirection {
    /// Level of the DIR line for this direction: high for forward, low for
    /// reverse.
    pub fn level_is_high(self) -> (high: bool)
        ensures
            high == (self == StepperDirection::Forward),
    {
        match self {
            StepperDirection::Reverse => false,
            StepperDirection::Forward => true,
        }
    }
}

/// Slowest pulse rate the motor is driven at, in Hz. At 1 MHz RMT resolution
/// the 15-bit duration field tops out at 32767 ticks (32.77 ms per
/// half-period), giving a minimum frequency of about 15 Hz.
pub const MIN_SPEED_HZ: u32 = 20;

/// Fastest pulse rate the motor is driven at, in Hz.
pub const MAX_SPEED_HZ: u32 = 20_000;

/// Largest joystick magnitude.
pub const JOY_FULL_SCALE: u32 = 127;

/// The pulse rate for joystick magnitude `abs_value`: linear from
/// [`MIN_SPEED_HZ`] at 0 to [`MAX_SPEED_HZ`] at 127, rounded down.
pub open spec fn joy_hz(abs_value: int) -> int {
    (MIN_SPEED_HZ * JOY_FULL_SCALE + abs_value * (MAX_SPEED_HZ - MIN_SPEED_HZ)) / JOY_FULL_SCALE as int
}

proof fn lemma_span_scaled_ordered(a: int, b: int)
    requires
        0 <= a <= b,
    ensures
        0 <= a * (MAX_SPEED_HZ - MIN_SPEED_HZ) <= b * (MAX_SPEED_HZ - MIN_SPEED_HZ),
{
    assert(0 <= a * 19980 <= b * 19980) by (nonlinear_arith)
        requires
            0 <= a <= b,
    ;
}

/// The pulse rate for joystick magnitude `abs_value`.
pub fn map_joy_to_hz(abs_value: u8) -> (hz: u32)
    ensures
        hz == joy_hz(abs_value as int),
        127 * hz <= 20 * 127 + 19980 * abs_value < 127 * (hz + 1),
{
    proof {
        lemma_span_scaled_ordered(abs_value as int, 255);
        lemma_joy_hz_floor(abs_value as int);
    }
    (MIN_SPEED_HZ * JOY_FULL_SCALE + abs_value as u32 * (MAX_SPEED_HZ - MIN_SPEED_HZ)) / JOY_FULL_SCALE
}

/// The magnitude of `v` (128 for -128).
pub open spec fn magnitude(v: i8) -> int {
    if v < 0 {
        -v
    } else {
        v as int
    }
}

/// The signed pulse rate for joystick value `value`: 0 at rest, otherwise
/// the rate for its magnitude, negative when `value` is.
pub open spec fn joy_hz_signed(value: i8) -> int {
    if value == 0 {
        0
    } else if value > 0 {
        joy_hz(magnitude(value))
    } else {
        -joy_hz(magnitude(value))
    }
}

fn unsigned_abs(v: i8) -> (m: u8)
    ensures
        m == magnitude(v),
{
    if v < 0 {
        (-(v as i16)) as u8
    } else {
        v as u8
    }
}

/// The signed target speed in Hz for joystick value `value` (positive is
/// forward).
pub fn joy_to_hz_signed(value: i8) -> (hz: i32)
    ensures
        hz == joy_hz_signed(value),
        value == 0 ==> hz == 0,
        value > 0 ==> hz == joy_hz(value as int) && hz > 0,
        value < 0 ==> hz == -joy_hz(-(value as int)) && hz < 0,
{
    proof {
        lemma_joy_hz_signed_sign(value);
    }
    if value == 0 {
        0
    } else {
        let m = map_joy_to_hz(unsigned_abs(value));
        proof {
            lemma_span_scaled_ordered(magnitude(value), 128);
            vstd::arithmetic::div_mod::lemma_div_is_ordered(
                (MIN_SPEED_HZ * JOY_FULL_SCALE + magnitude(value) * (MAX_SPEED_HZ - MIN_SPEED_HZ)) as int,
                (MIN_SPEED_HZ * JOY_FULL_SCALE + 128 * (MAX_SPEED_HZ - MIN_SPEED_HZ)) as int,
                127,
            );
        }
        if value > 0 {
            m as i32
        } else {
            -(m as i32)
        }
    }
}

/// What the motor is told to do by a direct drive command.
#[derive(Clone, Copy, Debug, PartialEq, Eq, Structural)]
pub enum DriveCommand {
    /// Stop the pulse train and disable the driver.
    Stop,
    /// Set the direction, pulse at `hz`, and enable the driver.
    Run { direction: StepperDirection, hz: u32 },
}

/// The command for driving directly (bypassing the ramp) at joystick value
/// `value`: stop at 0, otherwise run in the value's direction at the rate
/// for its magnitude.
pub open spec fn spec_drive_command(value: i8) -> DriveCommand {
    if value == 0 {
        DriveCommand::Stop
    } else {
        DriveCommand::Run {
            direction: if value > 0 {
                StepperDirection::Forward
            } else {
                StepperDirection::Reverse
            },
            hz: joy_hz(magnitude(value)) as u32,
        }
    }
}

/// The command for driving directly (bypassing the ramp) at joystick value
/// `value`.
pub fn drive_command(value: i8) -> (cmd: DriveCommand)
    ensures
        cmd == spec_drive_command(value),
        value == 0 ==> cmd == DriveCommand::Stop,
        value != 0 ==> (cmd matches DriveCommand::Run { direction, hz } && (direction
            == StepperDirection::Forward <==> value > 0) && hz == joy_hz(
            if value < 0 {
                -(value as int)
            } else {
                value as int
            },
        )),
{
    proof {
        lemma_drive_command_direction(value);
    }
    if value == 0 {
        DriveCommand::Stop
    } else {
        let direction = if value > 0 {
            StepperDirection::Forward
        } else {
            StepperDirection::Reverse
        };
        DriveCommand::Run { direction, hz: map_joy_to_hz(unsigned_abs(value)) }
    }
}

/// Every joystick magnitude up to full scale maps into
/// [`MIN_SPEED_HZ`]..=[`MAX_SPEED_HZ`], with the ends at rest and full
/// deflection.
pub proof fn lemma_joy_hz_range(abs_value: int)
    requires
        0 <= abs_value <= JOY_FULL_SCALE,
    ensures
        MIN_SPEED_HZ <= joy_hz(abs_value) <= MAX_SPEED_HZ,
        joy_hz(0) == MIN_SPEED_HZ,
        joy_hz(JOY_FULL_SCALE as int) == MAX_SPEED_HZ,
{
    lemma_span_scaled_ordered(abs_value, 127);
    vstd::arithmetic::div_mod::lemma_div_is_ordered(
        MIN_SPEED_HZ * JOY_FULL_SCALE as int,
        MIN_SPEED_HZ * JOY_FULL_SCALE + abs_value * (MAX_SPEED_HZ - MIN_SPEED_HZ),
        127,
    );
    vstd::arithmetic::div_mod::lemma_div_is_ordered(
        MIN_SPEED_HZ * JOY_FULL_SCALE + abs_value * (MAX_SPEED_HZ - MIN_SPEED_HZ),
        MIN_SPEED_HZ * JOY_FULL_SCALE + 127 * (MAX_SPEED_HZ - MIN_SPEED_HZ),
        127,
    );
}

/// A stronger deflection never gives a slower rate.
pub proof fn lemma_joy_hz_monotone(a: int, b: int)
    requires
        0 <= a <= b,
    ensures
        joy_hz(a) <= joy_hz(b),
{
    lemma_span_scaled_ordered(a, b);
    vstd::arithmetic::div_mod::lemma_div_is_ordered(
        MIN_SPEED_HZ * JOY_FULL_SCALE + a * (MAX_SPEED_HZ - MIN_SPEED_HZ),
        MIN_SPEED_HZ * JOY_FULL_SCALE + b * (MAX_SPEED_HZ - MIN_SPEED_HZ),
        127,
    );
}

/// Opposite joystick values ask for the same speed in opposite directions.
pub proof fn lemma_joy_hz_signed_symmetric(v: i8, w: i8)
    requires
        w as int == -(v as int),
    ensures
        joy_hz_signed(w) == -joy_hz_signed(v),
{
}

/// The pulse rate is the linear rate rounded down: `127·hz` is at most
/// `20·127 + 19980·a` and the next rate would exceed it.
pub proof fn lemma_joy_hz_floor(a: int)
    requires
        a >= 0,
    ensures
        127 * joy_hz(a) <= 20 * 127 + 19980 * a < 127 * (joy_hz(a) + 1),
{
    let x = MIN_SPEED_HZ * JOY_FULL_SCALE + a * (MAX_SPEED_HZ - MIN_SPEED_HZ);
    let k: int = (MAX_SPEED_HZ - MIN_SPEED_HZ) as int;
    assert(k == 19980);
    assert(a * k == 19980 * a) by (nonlinear_arith)
        requires
            k == 19980,
    ;
    assert(x == 20 * 127 + 19980 * a);
    vstd::arithmetic::div_mod::lemma_fundamental_div_mod(x, 127);
    vstd::arithmetic::div_mod::lemma_mod_bound(x, 127);
}

/// Every magnitude asks for at least [`MIN_SPEED_HZ`].
pub proof fn lemma_joy_hz_positive(a: int)
    requires
        a >= 0,
    ensures
        joy_hz(a) >= MIN_SPEED_HZ,
{
    lemma_span_scaled_ordered(0, a);
    vstd::arithmetic::div_mod::lemma_div_is_ordered(
        MIN_SPEED_HZ * JOY_FULL_SCALE as int,
        MIN_SPEED_HZ * JOY_FULL_SCALE + a * (MAX_SPEED_HZ - MIN_SPEED_HZ),
        127,
    );
}

/// The signed speed has the sign of the joystick value and the rate of its
/// magnitude: forward (positive) for a pushed stick, reverse (negative) for
/// a pulled one, 0 at rest.
pub proof fn lemma_joy_hz_signed_sign(v: i8)
    ensures
        v == 0 ==> joy_hz_signed(v) == 0,
        v > 0 ==> joy_hz_signed(v) == joy_hz(v as int) && joy_hz_signed(v) > 0,
        v < 0 ==> joy_hz_signed(v) == -joy_hz(-(v as int)) && joy_hz_signed(v) < 0,
{
    if v > 0 {
        lemma_joy_hz_positive(v as int);
    } else if v < 0 {
        lemma_joy_hz_positive(-(v as int));
    }
}

/// A direct drive at a non-zero value runs forward exactly when the value is
/// positive, at the rate of its magnitude; at 0 it stops.
pub proof fn lemma_drive_command_direction(v: i8)
    ensures
        v == 0 ==> spec_drive_command(v) == DriveCommand::Stop,
        v != 0 ==> (spec_drive_command(v) matches DriveCommand::Run { direction, hz } && (direction
            == StepperDirection::Forward <==> v > 0) && hz == joy_hz(
            if v < 0 {
                -(v as int)
            } else {
                v as int
            },
        )),
{
    if v != 0 {
        let m = if v < 0 {
            -(v as int)
        } else {
            v as int
        };
        lemma_span_scaled_ordered(m, 128);
        vstd::arithmetic::div_mod::lemma_div_is_ordered(
            MIN_SPEED_HZ * JOY_FULL_SCALE + m * (MAX_SPEED_HZ - MIN_SPEED_HZ),
            MIN_SPEED_HZ * JOY_FULL_SCALE + 128 * (MAX_SPEED_HZ - MIN_SPEED_HZ),
            127,
        );
        lemma_joy_hz_positive(m);
    }
}

} // verus!

//! Board-specific readings: the joystick axis as wired on the bench boards.

use vstd::prelude::*;

verus! {

use crate::joystick::axis_position;

pub const JOY_ZERO_CLIP: u16 = 60;

pub const JOY_ZERO: u16 = 1635;

pub const JOY_MIN: u16 = 0;

pub const JOY_MAX: u16 = 3061;

/// Map an ADC millivolt value to a signed byte in the range -127..=127.
pub fn map_mv_to_i8(mv: u16) -> (pos: i8)
    ensures
        pos as int == axis_position(
            mv as int,
            JOY_ZERO as int,
            JOY_ZERO_CLIP as int,
            JOY_MIN as int,
            JOY_MAX as int,
        ),
{
    let low_edge: u32 = (JOY_ZERO - JOY_ZERO_CLIP) as u32;
    let high_edge: u32 = (JOY_ZERO + JOY_ZERO_CLIP) as u32;
    let m: u32 = mv as u32;
    if m < low_edge {
        let span: u32 = low_edge - JOY_MIN as u32;
        let num: u32 = 127 * (low_edge - m);
        let r: u32 = (2 * num + span) / (2 * span);
        proof {
            vstd::arithmetic::div_mod::lemma_div_is_ordered(
                (2 * num + span) as int,
                (2 * 127 * span + span) as int,
                (2 * span) as int,
            );
            assert((2 * 127 * 1575 + 1575) / (2 * 1575) == 127);
        }
        -(r as i8)
    } else if m > high_edge {
        let span: u32 = JOY_MAX as u32 - high_edge;
        let num: u32 = 127 * (m - high_edge);
        let r: u32 = (2 * num + span) / (2 * span);
        if r > 127 {
            127
        } else {
            r as i8
        }
    } else {
        0
    }
}

} // verus!

//! Reading of the remote's analog joystick axis.

use vstd::prelude::*;

verus! {

/// The nearest integer to `num / den`, halves rounded away from zero.
pub open spec fn round_ratio(num: int, den: int) -> int
    recommends
        den > 0,
{
    if num >= 0 {
        (2 * num + den) / (2 * den)
    } else {
        -((2 * -num + den) / (2 * den))
    }
}

/// `x` limited to -127..=127.
pub open spec fn clamp_axis(x: int) -> int {
    if x < -127 {
        -127
    } else if x > 127 {
        127
    } else {
        x
    }
}

/// Position of an axis whose reading is `mv` millivolts, for an axis that
/// rests at `zero` with a dead zone of `clip` either side and travels from
/// `min` to `max`.
///
/// Below the dead zone the position is -127 times the distance to the dead
/// zone over the travel below it; above the dead zone it is 127 times the
/// distance over the travel above it; both rounded to the nearest integer
/// (halves away from zero) and limited to -127..=127. Inside the dead zone it
/// is 0.
pub open spec fn axis_position(mv: int, zero: int, clip: int, min: int, max: int) -> int {
    if mv < zero - clip {
        clamp_axis(round_ratio(127 * (mv - (zero - clip)), zero - clip - min))
    } else if mv > zero + clip {
        clamp_axis(round_ratio(127 * (mv - (zero + clip)), max - (zero + clip)))
    } else {
        0
    }
}

/// The conditions under which [`axis_position`] describes an axis: a dead
/// zone inside the travel.
pub open spec fn axis_calibration_ok(zero: int, clip: int, min: int, max: int) -> bool {
    &&& 0 <= clip
    &&& min < zero - clip
    &&& zero + clip < max
}

proof fn lemma_round_ratio_nonneg_monotone(a: int, b: int, den: int)
    requires
        0 <= a <= b,
        den > 0,
    ensures
        0 <= round_ratio(a, den) <= round_ratio(b, den),
{
    vstd::arithmetic::div_mod::lemma_div_is_ordered(2 * a + den, 2 * b + den, 2 * den);
    vstd::arithmetic::div_mod::lemma_div_pos_is_pos(2 * a + den, 2 * den);
}

proof fn lemma_round_ratio_monotone(a: int, b: int, den: int)
    requires
        a <= b,
        den > 0,
    ensures
        round_ratio(a, den) <= round_ratio(b, den),
        a <= 0 ==> round_ratio(a, den) <= 0,
        b >= 0 ==> round_ratio(b, den) >= 0,
{
    if a >= 0 {
        lemma_round_ratio_nonneg_monotone(a, b, den);
    } else if b >= 0 {
        lemma_round_ratio_nonneg_monotone(-a, -a, den);
        lemma_round_ratio_nonneg_monotone(b, b, den);
    } else {
        lemma_round_ratio_nonneg_monotone(-b, -a, den);
    }
    if a <= 0 && a >= 0 {
        assert(round_ratio(a, den) == (den) / (2 * den));
        vstd::arithmetic::div_mod::lemma_basic_div(den, 2 * den);
    }
}

/// [`round_ratio`] gives the integer nearest to `x / d`, a half rounded
/// away from zero: `2·(r·d − x)` lies in `(−d, d]` for `x ≥ 0` and in
/// `[−d, d)` for `x < 0`. The result has the sign of `x`.
pub proof fn lemma_round_ratio_nearest(x: int, d: int)
    requires
        d > 0,
    ensures
        x >= 0 ==> round_ratio(x, d) >= 0 && -d < 2 * (round_ratio(x, d) * d - x) <= d,
        x < 0 ==> round_ratio(x, d) <= 0 && -d <= 2 * (round_ratio(x, d) * d - x) < d,
{
    let n = if x >= 0 {
        2 * x + d
    } else {
        -2 * x + d
    };
    let q = n / (2 * d);
    vstd::arithmetic::div_mod::lemma_fundamental_div_mod(n, 2 * d);
    vstd::arithmetic::div_mod::lemma_mod_bound(n, 2 * d);
    vstd::arithmetic::div_mod::lemma_div_pos_is_pos(n, 2 * d);
    let m = n % (2 * d);
    assert(n == 2 * d * q + m);
    assert(2 * d * q == 2 * (q * d)) by (nonlinear_arith);
    if x >= 0 {
        assert(round_ratio(x, d) == q);
    } else {
        assert(round_ratio(x, d) == -q);
        assert((-q) * d == -(q * d)) by (nonlinear_arith);
    }
}

/// Outside the dead zone the position is the nearest integer to 127 times
/// the reading's distance from the dead zone over the travel on that side,
/// a half rounded away from zero, limited to -127..=127 (a reading beyond
/// the limit gives the limit).
pub proof fn lemma_axis_position_nearest(mv: int, zero: int, clip: int, min: int, max: int)
    requires
        axis_calibration_ok(zero, clip, min, max),
    ensures
        mv < zero - clip ==> {
            let x = 127 * (mv - (zero - clip));
            let d = zero - clip - min;
            let p = axis_position(mv, zero, clip, min, max);
            &&& -127 <= p <= 0
            &&& -d <= 2 * (p * d - x)
            &&& p > -127 ==> 2 * (p * d - x) < d
        },
        mv > zero + clip ==> {
            let x = 127 * (mv - (zero + clip));
            let d = max - (zero + clip);
            let p = axis_position(mv, zero, clip, min, max);
            &&& 0 <= p <= 127
            &&& 2 * (p * d - x) <= d
            &&& p < 127 ==> -d < 2 * (p * d - x)
        },
        zero - clip <= mv <= zero + clip ==> axis_position(mv, zero, clip, min, max) == 0,
{
    if mv < zero - clip {
        let x = 127 * (mv - (zero - clip));
        let d = zero - clip - min;
        let r = round_ratio(x, d);
        lemma_round_ratio_nearest(x, d);
        if r < -127 {
            assert(2 * (-127 * d - x) >= -d) by (nonlinear_arith)
                requires
                    -d <= 2 * (r * d - x),
                    r < -127,
                    d > 0,
            ;
        }
    } else if mv > zero + clip {
        let x = 127 * (mv - (zero + clip));
        let d = max - (zero + clip);
        let r = round_ratio(x, d);
        lemma_round_ratio_nearest(x, d);
        if r > 127 {
            assert(2 * (127 * d - x) <= d) by (nonlinear_arith)
                requires
                    2 * (r * d - x) <= d,
                    r > 127,
                    d > 0,
            ;
        }
    }
}

/// The axis position lies in -127..=127, as the wire format demands.
pub proof fn lemma_axis_position_range(mv: int, zero: int, clip: int, min: int, max: int)
    ensures
        -127 <= axis_position(mv, zero, clip, min, max) <= 127,
{
}

/// Readings inside the dead zone give position 0.
pub proof fn lemma_axis_position_dead_zone(mv: int, zero: int, clip: int, min: int, max: int)
    requires
        zero - clip <= mv <= zero + clip,
    ensures
        axis_position(mv, zero, clip, min, max) == 0,
{
}

/// A higher reading never gives a lower position.
pub proof fn lemma_axis_position_monotone(
    mv1: int,
    mv2: int,
    zero: int,
    clip: int,
    min: int,
    max: int,
)
    requires
        axis_calibration_ok(zero, clip, min, max),
        mv1 <= mv2,
    ensures
        axis_position(mv1, zero, clip, min, max) <= axis_position(mv2, zero, clip, min, max),
{
    let lo = zero - clip;
    let hi = zero + clip;
    if mv1 < lo {
        if mv2 < lo {
            lemma_round_ratio_monotone(127 * (mv1 - lo), 127 * (mv2 - lo), lo - min);
        } else {
            lemma_round_ratio_monotone(127 * (mv1 - lo), 127 * (mv1 - lo), lo - min);
            if mv2 > hi {
                lemma_round_ratio_monotone(127 * (mv2 - hi), 127 * (mv2 - hi), max - hi);
            }
        }
    } else if mv1 <= hi {
        if mv2 > hi {
            lemma_round_ratio_monotone(127 * (mv2 - hi), 127 * (mv2 - hi), max - hi);
        }
    } else {
        lemma_round_ratio_monotone(127 * (mv1 - hi), 127 * (mv2 - hi), max - hi);
    }
}

pub const JOY_ZERO_CLIP: u16 = 50;

pub const JOY_ZERO: u16 = 1563;

pub const JOY_MIN: u16 = 0;

pub const JOY_MAX: u16 = 3061;

/// Map an ADC millivolt value to a signed byte in the range -127..=127.
pub fn map_mv_to_i8(mv: u16) -> (pos: i8)
    ensures
        pos as int == axis_position(
            mv as int,
            JOY_ZERO as int,
            JOY_ZERO_CLIP as int,
            JOY_MIN as int,
            JOY_MAX as int,
        ),
{
    let low_edge: u32 = (JOY_ZERO - JOY_ZERO_CLIP) as u32;
    let high_edge: u32 = (JOY_ZERO + JOY_ZERO_CLIP) as u32;
    let m: u32 = mv as u32;
    if m < low_edge {
        let span: u32 = low_edge - JOY_MIN as u32;
        let num: u32 = 127 * (low_edge - m);
        let r: u32 = (2 * num + span) / (2 * span);
        proof {
            vstd::arithmetic::div_mod::lemma_div_is_ordered(
                (2 * num + span) as int,
                (2 * 127 * span + span) as int,
                (2 * span) as int,
            );
            assert((2 * 127 * 1513 + 1513) / (2 * 1513) == 127);
        }
        -(r as i8)
    } else if m > high_edge {
        let span: u32 = JOY_MAX as u32 - high_edge;
        let num: u32 = 127 * (m - high_edge);
        let r: u32 = (2 * num + span) / (2 * span);
        if r > 127 {
            127
        } else {
            r as i8
        }
    } else {
        0
    }
}

} // verus!

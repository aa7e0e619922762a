use crate::types::{Gain, IntegrationTime};
use vstd::arithmetic::div_mod::{
    lemma_div_is_ordered, lemma_div_multiples_vanish, lemma_div_nonincreasing,
    lemma_div_pos_is_pos, lemma_multiply_divide_lt,
};
use vstd::arithmetic::mul::lemma_mul_inequality;
use vstd::prelude::*;

verus! {

const OVERFLOW_100MS: u16 = 36863;

const OVERFLOW_OTHER: u16 = 65535;

/// Saturation threshold of a raw channel under the given integration
/// time: the shortest mode saturates early, every other mode only at
/// the top of the 16-bit range.
pub open spec fn spec_overflow_threshold(t: IntegrationTime) -> u16 {
    if t == IntegrationTime::_100MS {
        36863
    } else {
        65535
    }
}

/// A raw channel pair is unusable when either channel reached the
/// saturation threshold of the active integration time.
pub open spec fn spec_overflows(t: IntegrationTime, ch_0: u16, ch_1: u16) -> bool {
    ch_0 >= spec_overflow_threshold(t) || ch_1 >= spec_overflow_threshold(t)
}

/// Decide whether either raw channel saturated under `integration_time`.
pub fn check_overflow(integration_time: IntegrationTime, ch_0: u16, ch_1: u16) -> (r: bool)
    ensures
        r == spec_overflows(integration_time, ch_0, ch_1),
{
    let overflow_value: u16 = if let IntegrationTime::_100MS = integration_time {
        OVERFLOW_100MS
    } else {
        OVERFLOW_OTHER
    };

    (ch_0 >= overflow_value) || (ch_1 >= overflow_value)
}

/// The saturation threshold is 36863 in the 100 ms mode and 65535 in
/// every other mode; a channel one below its threshold never counts as
/// overflow, and one at or above it always does.
pub proof fn lemma_overflow_threshold(t: IntegrationTime, ch_0: u16, ch_1: u16)
    ensures
        t == IntegrationTime::_100MS ==> spec_overflow_threshold(t) == 36863,
        t != IntegrationTime::_100MS ==> spec_overflow_threshold(t) == 65535,
        ch_0 >= spec_overflow_threshold(t) ==> spec_overflows(t, ch_0, ch_1),
        ch_1 >= spec_overflow_threshold(t) ==> spec_overflows(t, ch_0, ch_1),
        ch_0 < spec_overflow_threshold(t) && ch_1 < spec_overflow_threshold(t)
            ==> !spec_overflows(t, ch_0, ch_1),
{
}

/// Truncating division (rounding toward zero) for a positive divisor,
/// matching what the machine's signed division does.
pub open spec fn div_trunc(a: int, b: int) -> int {
    if a >= 0 {
        a / b
    } else {
        -((-a) / b)
    }
}

/// Counts-per-lux divisor on the nano scale: integration time in
/// milliseconds times the gain multiplier, scaled by 1e9, divided by
/// the calibration constant 408.
pub open spec fn spec_cpl_nano(t: IntegrationTime, g: Gain) -> int {
    (t.spec_millis() * g.spec_multiplier() * 1_000_000_000) / 408
}

/// First candidate term of the two-term formula, on the nano scale:
/// (ch0 - 1.64 ch1) / cpl with every quantity pre-multiplied by 1e9.
pub open spec fn spec_lux1_nano(t: IntegrationTime, g: Gain, ch_0: u16, ch_1: u16) -> int {
    div_trunc(
        ch_0 * 1_000_000_000_000_000_000 - 1_640_000_000_000_000_000 * ch_1,
        spec_cpl_nano(t, g),
    )
}

/// Second candidate term: (0.59 ch0 - 0.86 ch1) / cpl on the nano scale.
pub open spec fn spec_lux2_nano(t: IntegrationTime, g: Gain, ch_0: u16, ch_1: u16) -> int {
    div_trunc(
        590_000_000_000_000_000 * ch_0 - 860_000_000_000_000_000 * ch_1,
        spec_cpl_nano(t, g),
    )
}

/// The two-term conversion returns the larger candidate.
pub open spec fn spec_adafruit_nano_lux(t: IntegrationTime, g: Gain, ch_0: u16, ch_1: u16) -> int {
    if spec_lux1_nano(t, g, ch_0, ch_1) >= spec_lux2_nano(t, g, ch_0, ch_1) {
        spec_lux1_nano(t, g, ch_0, ch_1)
    } else {
        spec_lux2_nano(t, g, ch_0, ch_1)
    }
}

/// The counts-per-lux divisor is bounded well away from zero and from
/// the top of the 64-bit range, for every configuration.
pub proof fn lemma_cpl_bounds(t: IntegrationTime, g: Gain)
    ensures
        245_000_000 <= spec_cpl_nano(t, g) <= 6_000_000_000_000_000,
{
    let num: int = t.spec_millis() * g.spec_multiplier() * 1_000_000_000;
    assert(100 <= t.spec_millis() * g.spec_multiplier() <= 5_925_600) by (nonlinear_arith)
        requires
            100 <= t.spec_millis() <= 600,
            1 <= g.spec_multiplier() <= 9876,
    ;
    assert((408 * 245_000_000) as int <= num);
    lemma_div_multiples_vanish(245_000_000, 408);
    lemma_div_is_ordered((408 * 245_000_000) as int, num, 408);
    lemma_div_nonincreasing(num, 408);
}

/// A candidate numerator's magnitude never exceeds 1.08e23, and the
/// divisor is at least 2.45e8, so every quotient fits comfortably in
/// 64 bits.
proof fn lemma_lux_quotient_bound(mag: int, cpl: int)
    requires
        0 <= mag <= 108_000_000_000_000_000_000_000,
        245_000_000 <= cpl,
    ensures
        0 <= mag / cpl < 1_000_000_000_000_000,
{
    lemma_div_pos_is_pos(mag, cpl);
    lemma_mul_inequality(245_000_000, cpl, 1_000_000_000_000_000);
    lemma_multiply_divide_lt(mag, cpl, 1_000_000_000_000_000);
}

/// Conversion strategy following the two-term formula of the vendor's
/// reference code, computed in scaled 64-bit integers: every physical
/// quantity is pre-multiplied by 1e9, so the result is an illuminance
/// in nano-lux. The wider intermediate products are exact; the result
/// of each division truncates toward zero as the formula's reference
/// arithmetic does.
pub struct AdafruitPythonLuxConverter;

impl AdafruitPythonLuxConverter {
    /// Convert a raw channel pair to nano-lux, or report saturation
    /// with `None`. The result is exactly the larger of the two
    /// candidate terms of the formula, on the nano scale.
    pub fn calculate_nano_lux(
        integration_time: IntegrationTime,
        gain: Gain,
        ch_0: u16,
        ch_1: u16,
    ) -> (r: Option<i64>)
        ensures
            r is Some <==> !spec_overflows(integration_time, ch_0, ch_1),
            r matches Some(v) ==> v == spec_adafruit_nano_lux(integration_time, gain, ch_0, ch_1),
    {
        if check_overflow(integration_time, ch_0, ch_1) {
            return None;
        }
        let millis: u32 = integration_time.get_integration_time_millis();
        let mult: u32 = gain.get_multiplier();
        proof {
            lemma_cpl_bounds(integration_time, gain);
            assert(100 <= millis as int * mult as int <= 5_925_600) by (nonlinear_arith)
                requires
                    100 <= millis <= 600,
                    1 <= mult <= 9876,
            ;
        }
        let cpl: u64 = ((millis as u64) * (mult as u64) * 1_000_000_000) / 408;
        if cpl == 0 {
            return None;
        }
        let cpl128: u128 = cpl as u128;

        let pos1: u128 = (ch_0 as u128) * 1_000_000_000_000_000_000;
        let neg1: u128 = (ch_1 as u128) * 1_640_000_000_000_000_000;
        let lux1: i64 = if pos1 >= neg1 {
            let q: u128 = (pos1 - neg1) / cpl128;
            proof {
                lemma_lux_quotient_bound(pos1 - neg1, cpl128 as int);
            }
            q as i64
        } else {
            let q: u128 = (neg1 - pos1) / cpl128;
            proof {
                lemma_lux_quotient_bound(neg1 - pos1, cpl128 as int);
            }
            -(q as i64)
        };

        let pos2: u128 = (ch_0 as u128) * 590_000_000_000_000_000;
        let neg2: u128 = (ch_1 as u128) * 860_000_000_000_000_000;
        let lux2: i64 = if pos2 >= neg2 {
            let q: u128 = (pos2 - neg2) / cpl128;
            proof {
                lemma_lux_quotient_bound(pos2 - neg2, cpl128 as int);
            }
            q as i64
        } else {
            let q: u128 = (neg2 - pos2) / cpl128;
            proof {
                lemma_lux_quotient_bound(neg2 - pos2, cpl128 as int);
            }
            -(q as i64)
        };

        if lux1 >= lux2 {
            Some(lux1)
        } else {
            Some(lux2)
        }
    }
}

/// Whenever neither channel saturates and the raw pair is far enough
/// from the infrared-dominated region that the second candidate term
/// is non-negative (59 ch0 >= 86 ch1), the two-term conversion yields
/// a non-negative nano-lux value.
pub proof fn lemma_nano_lux_nonnegative(t: IntegrationTime, g: Gain, ch_0: u16, ch_1: u16)
    requires
        !spec_overflows(t, ch_0, ch_1),
        59 * ch_0 >= 86 * ch_1,
    ensures
        spec_adafruit_nano_lux(t, g, ch_0, ch_1) >= 0,
{
    lemma_cpl_bounds(t, g);
    let num2 = 590_000_000_000_000_000 * ch_0 - 860_000_000_000_000_000 * ch_1;
    assert(num2 >= 0);
    lemma_div_pos_is_pos(num2, spec_cpl_nano(t, g));
}

/// Nano-lux multiplier of the cross-check strategy: the gain
/// multiplier scaled to nano-lux per count of channel 0.
pub open spec fn spec_yocto_nano_multiplier(g: Gain) -> int {
    match g {
        Gain::Low => 1_000_000,
        Gain::Med => 25_000_000,
        Gain::High => 428_000_000,
        Gain::Max => 9_876_000_000,
    }
}

/// Raw nano-lux estimate of the cross-check strategy, from channel 0
/// and the gain alone.
pub open spec fn spec_yocto_nano(g: Gain, ch_0: u16) -> int {
    ch_0 * spec_yocto_nano_multiplier(g)
}

/// The cross-check strategy rejects estimates outside its empirically
/// accepted band for the gain setting, and a zero estimate always.
pub open spec fn spec_yocto_rejects(g: Gain, nano_lux: int) -> bool {
    (g != Gain::Max && nano_lux < 50) || (g != Gain::Low && nano_lux > 37_000) || nano_lux == 0
}

/// Independent cross-check strategy: derives nano-lux directly from
/// channel 0 and the gain multiplier, ignoring channel 1 except
/// through the shared saturation check, and rejects results outside
/// an empirically bounded acceptance range per gain setting.
pub struct YoctoLuxConverter;

impl YoctoLuxConverter {
    /// Convert a raw channel pair to nano-lux, or report saturation or
    /// an out-of-band estimate with `None`.
    pub fn calculate_nano_lux(
        integration_time: IntegrationTime,
        gain: Gain,
        ch_0: u16,
        ch_1: u16,
    ) -> (r: Option<i64>)
        ensures
            spec_overflows(integration_time, ch_0, ch_1) ==> r is None,
            !spec_overflows(integration_time, ch_0, ch_1) ==> r == (
            if spec_yocto_rejects(gain, spec_yocto_nano(gain, ch_0)) {
                None
            } else {
                Some(spec_yocto_nano(gain, ch_0) as i64)
            }),
    {
        if check_overflow(integration_time, ch_0, ch_1) {
            return None;
        }

        let nano_lux: i64 = match gain {
            Gain::Low => (ch_0 as i64) * 1_000_000,
            Gain::Med => (ch_0 as i64) * 25_000_000,
            Gain::High => (ch_0 as i64) * 428_000_000,
            Gain::Max => (ch_0 as i64) * 9_876_000_000,
        };

        if (gain != Gain::Max && nano_lux < 50) || (gain != Gain::Low && nano_lux > 37_000)
            || nano_lux == 0 {
            return None;
        }

        Some(nano_lux)
    }
}

} // verus!

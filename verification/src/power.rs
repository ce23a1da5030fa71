//! Motor power values and the power-to-duty-cycle conversion.
//!
//! A power is a signed fraction of full scale in the closed interval
//! [-1, 1], held in thousandths (`permille`) so that the conversion is
//! exact integer arithmetic. The wire carries only an 8-bit duty magnitude
//! (`duty = round(255 * clamp(|power|, 0, 1))`); the sign travels in the
//! choice of opcode, never in the payload byte.

use vstd::prelude::*;
use vstd::arithmetic::div_mod::lemma_fundamental_div_mod;
use vstd::math::abs;

verus! {

/// Full-scale duty value: the payload byte for 100% power.
pub const PWM_MAX: u8 = 255;

/// One full scale expressed in thousandths: `Power { permille: 1000 }` is
/// 100% forward power.
pub const POWER_SCALE: i32 = 1000;

/// A signed motor power: `permille` thousandths of full scale. The intended
/// interval is [-1000, 1000]; values outside it are clamped before
/// encoding, never rejected.
#[derive(Clone, Copy, Debug, PartialEq, Eq, Structural)]
pub struct Power {
    /// Thousandths of full scale, sign giving the direction.
    pub permille: i32,
}

/// Clamp a power to the interval [-1000, 1000].
pub open spec fn clamp_permille(p: int) -> int {
    if p < -1000 {
        -1000
    } else if p > 1000 {
        1000
    } else {
        p
    }
}

/// The magnitude of a power after clamping: an integer in [0, 1000].
pub open spec fn magnitude_permille(p: int) -> int {
    let c = clamp_permille(p);
    if c < 0 {
        -c
    } else {
        c
    }
}

/// The duty byte encoding a power: `round(255 * clamp(|p|, 0, 1))` with the
/// power in thousandths, so `(255 * magnitude + 500) / 1000`.
pub open spec fn duty_of_power(p: int) -> int {
    (255 * magnitude_permille(p) + 500) / 1000
}

/// The power magnitude, in thousandths, read back from a duty byte:
/// `round(1000 * duty / 255)`.
pub open spec fn power_of_duty(d: int) -> int {
    (1000 * d + 127) / 255
}

/// The direction code a power encodes to: forward for zero or positive,
/// reverse for negative.
pub open spec fn direction_code(p: int) -> u8 {
    if p >= 0 {
        1u8
    } else {
        2u8
    }
}

/// The signed power a direction code and duty byte decode to.
pub open spec fn signed_power_of(direction: u8, d: int) -> int {
    if direction == 1 {
        power_of_duty(d)
    } else {
        -power_of_duty(d)
    }
}

/// Convert a power to the duty byte sent on the wire. Powers beyond full
/// scale are clamped; the result never exceeds [`PWM_MAX`].
pub fn power_to_pwm(power: Power) -> (r: u8)
    ensures
        r as int == duty_of_power(power.permille as int),
{
    let p = power.permille;
    let mag: i32 = if p < -1000 {
        1000
    } else if p > 1000 {
        1000
    } else if p < 0 {
        -p
    } else {
        p
    };
    let m: u32 = mag as u32;
    proof {
        assert(m as int == magnitude_permille(p as int));
    }
    let duty: u32 = (255 * m + 500) / 1000;
    proof {
        lemma_fundamental_div_mod(255 * (m as int) + 500, 1000);
    }
    duty as u8
}

/// Decode a motor response: the direction code picks the sign, the duty
/// byte gives the magnitude. Any direction code other than forward (1) or
/// reverse (2) is out of the protocol's domain and yields `None`.
pub fn pwm_to_power(direction: u8, pwm: u8) -> (r: Option<Power>)
    ensures
        direction == 1 || direction == 2 ==> (r == Some(Power {
            permille: signed_power_of(direction, pwm as int) as i32,
        })),
        direction != 1 && direction != 2 ==> r is None,
{
    let mag_u: u32 = (1000 * (pwm as u32) + 127) / 255;
    proof {
        lemma_fundamental_div_mod(1000 * (pwm as int) + 127, 255);
    }
    let mag: i32 = mag_u as i32;
    if direction == 1 {
        Some(Power { permille: mag })
    } else if direction == 2 {
        Some(Power { permille: -mag })
    } else {
        None
    }
}

/// The duty encoding is total into the payload byte: for every power, even
/// far beyond full scale, the duty lies between 0 and [`PWM_MAX`].
pub proof fn lemma_duty_in_range(p: int)
    ensures
        0 <= duty_of_power(p) <= 255,
{
    lemma_fundamental_div_mod(255 * magnitude_permille(p) + 500, 1000);
}

/// The magnitude decoding stays within full scale: every duty byte decodes
/// to a magnitude between 0 and [`POWER_SCALE`] thousandths.
pub proof fn lemma_power_of_duty_in_range(d: int)
    requires
        0 <= d <= 255,
    ensures
        0 <= power_of_duty(d) <= 1000,
{
    lemma_fundamental_div_mod(1000 * d + 127, 255);
}

/// Clamping is total: any power whose magnitude exceeds full scale encodes
/// to the full-scale duty byte.
pub proof fn lemma_overdrive_saturates(p: int)
    requires
        p < -1000 || p > 1000,
    ensures
        duty_of_power(p) == 255,
{
}

/// Encoding a power and decoding the resulting direction code and duty
/// byte preserves the direction (zero counts as forward) and reproduces
/// the power to within one duty step, 1/255 of full scale.
pub proof fn lemma_power_round_trip(p: int)
    requires
        -1000 <= p <= 1000,
    ensures
        p >= 0 ==> signed_power_of(direction_code(p), duty_of_power(p)) >= 0,
        p < 0 ==> signed_power_of(direction_code(p), duty_of_power(p)) <= 0,
        255 * abs(signed_power_of(direction_code(p), duty_of_power(p)) - p) <= 1000,
{
    let m0 = magnitude_permille(p);
    let x = 255 * m0 + 500;
    let d = duty_of_power(p);
    lemma_fundamental_div_mod(x, 1000);
    let y = 1000 * d + 127;
    let m1 = power_of_duty(d);
    lemma_fundamental_div_mod(y, 255);
    assert(255 * m1 <= 255 * m0 + 627 && 255 * m1 >= 255 * m0 - 626);
}

} // verus!

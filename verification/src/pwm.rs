//! PWM set-points, carried as IEEE-754 single-precision bit patterns.
//!
//! The actuator consumer clamps every requested duty cycle into `[0, 1]`
//! before applying and persisting it. The clamp is stated over the bits: for
//! nonnegative, non-NaN patterns the integer order of the bits is the numeric
//! order of the encoded values, so one comparison against the pattern of 1.0
//! decides the upper bound; a set sign bit means the value is at most zero,
//! so it clamps to 0; a NaN pattern carries no usable duty at all and is
//! applied as zero duty.
use vstd::prelude::*;

use crate::store::{Store, StoreSpec};

verus! {

#[derive(Debug, Clone, Copy, PartialEq, Eq, Structural)]
pub enum PwmChannel {
    Pwm0,
    Pwm1,
}

/// The bit pattern of 1.0.
pub const F32_ONE_BITS: u32 = 0x3F80_0000;

/// The bit pattern of 0.6, the duty cycle channel 0 boots with when the
/// store holds none.
pub const DEFAULT_PWM0_BITS: u32 = 0x3F19_999A;

/// The bit pattern of 0.28, the duty cycle channel 1 boots with when the
/// store holds none.
pub const DEFAULT_PWM1_BITS: u32 = 0x3E8F_5C29;

pub open spec fn f32_sign(b: u32) -> bool {
    (b >> 31) == 1
}

pub open spec fn f32_exp(b: u32) -> u32 {
    (b >> 23) & 0xFF
}

pub open spec fn f32_frac(b: u32) -> u32 {
    b & 0x007F_FFFF
}

pub open spec fn f32_is_nan_bits(b: u32) -> bool {
    f32_exp(b) == 0xFF && f32_frac(b) != 0
}

/// The clamp into `[0, 1]`: NaN and everything with the sign bit set become
/// 0, everything above the pattern of 1.0 becomes 1.0, and every duty
/// already in range passes through unchanged.
pub open spec fn clamp_duty(b: u32) -> u32 {
    if f32_is_nan_bits(b) {
        0
    } else if f32_sign(b) {
        0
    } else if b > F32_ONE_BITS {
        F32_ONE_BITS
    } else {
        b
    }
}

/// Decides `clamp_duty` on a concrete bit pattern.
pub fn clamp_duty_bits(b: u32) -> (r: u32)
    ensures
        r == clamp_duty(b),
{
    let sign: bool = (b >> 31) == 1;
    let exp: u32 = (b >> 23) & 0xFF;
    let frac: u32 = b & 0x007F_FFFF;
    if exp == 0xFF && frac != 0 {
        0
    } else if sign {
        0
    } else if b > F32_ONE_BITS {
        F32_ONE_BITS
    } else {
        b
    }
}

/// The duty cycle a channel reports and boots with: its persisted set-point,
/// or the channel's default when the store holds none.
pub open spec fn stored_duty_spec(st: StoreSpec, channel: PwmChannel) -> u32 {
    match channel {
        PwmChannel::Pwm0 => match st.pwm0 {
            Some(b) => b,
            None => DEFAULT_PWM0_BITS,
        },
        PwmChannel::Pwm1 => match st.pwm1 {
            Some(b) => b,
            None => DEFAULT_PWM1_BITS,
        },
    }
}

/// Reads a channel's persisted set-point, falling back to its default.
pub fn stored_duty(store: &Store, channel: &PwmChannel) -> (r: u32)
    ensures
        r == stored_duty_spec(store@, *channel),
{
    match channel {
        PwmChannel::Pwm0 => match store.get_pwm0() {
            Some(b) => b,
            None => DEFAULT_PWM0_BITS,
        },
        PwmChannel::Pwm1 => match store.get_pwm1() {
            Some(b) => b,
            None => DEFAULT_PWM1_BITS,
        },
    }
}

/// Consumes one actuator command: clamps the requested duty cycle, persists
/// the clamped value under the channel's key, and yields it for the caller
/// to apply to the hardware.
pub fn apply_set_point(store: &mut Store, channel: &PwmChannel, value: u32) -> (r: u32)
    requires
        old(store).wf(),
    ensures
        final(store).wf(),
        r == clamp_duty(value),
        *channel is Pwm0 ==> final(store)@ == (StoreSpec {
            pwm0: Some(clamp_duty(value)),
            ..old(store)@
        }),
        *channel is Pwm1 ==> final(store)@ == (StoreSpec {
            pwm1: Some(clamp_duty(value)),
            ..old(store)@
        }),
{
    let clamped = clamp_duty_bits(value);
    match channel {
        PwmChannel::Pwm0 => store.set_pwm0(clamped),
        PwmChannel::Pwm1 => store.set_pwm1(clamped),
    }
    clamped
}

/// The big-endian bytes of a set-point, most significant first: the wire and
/// on-disk form of a duty cycle.
pub open spec fn duty_be_bytes(b: u32) -> Seq<u8> {
    seq![(b >> 24) as u8, (b >> 16) as u8, (b >> 8) as u8, b as u8]
}

/// Encodes a set-point for persistence.
pub fn duty_to_be_bytes(b: u32) -> (r: [u8; 4])
    ensures
        r@ == duty_be_bytes(b),
{
    let r: [u8; 4] = [(b >> 24) as u8, (b >> 16) as u8, (b >> 8) as u8, b as u8];
    proof {
        assert(r@ =~= duty_be_bytes(b));
    }
    r
}

/// Decodes a persisted set-point.
pub fn duty_from_be_bytes(b0: u8, b1: u8, b2: u8, b3: u8) -> (r: u32)
    ensures
        duty_be_bytes(r) == seq![b0, b1, b2, b3],
{
    let r: u32 = ((b0 as u32) << 24) | ((b1 as u32) << 16) | ((b2 as u32) << 8) | (b3 as u32);
    proof {
        assert(r == ((b0 as u32) << 24) | ((b1 as u32) << 16) | ((b2 as u32) << 8) | (b3 as u32)
            ==> ((r >> 24) as u8 == b0 && (r >> 16) as u8 == b1 && (r >> 8) as u8 == b2 && r as u8
            == b3)) by (bit_vector);
        assert(duty_be_bytes(r) =~= seq![b0, b1, b2, b3]);
    }
    r
}

/// Encoding a set-point and decoding the bytes yields the set-point back.
pub proof fn lemma_duty_bytes_round_trip(b: u32)
    ensures
        ({
            let s = duty_be_bytes(b);
            s.len() == 4 && ((s[0] as u32) << 24) | ((s[1] as u32) << 16) | ((s[2] as u32) << 8)
                | (s[3] as u32) == b
        }),
{
    let b0 = (b >> 24) as u8;
    let b1 = (b >> 16) as u8;
    let b2 = (b >> 8) as u8;
    let b3 = b as u8;
    assert((((b >> 24) as u8) as u32) << 24 | (((b >> 16) as u8) as u32) << 16 | (((b
        >> 8) as u8) as u32) << 8 | ((b as u8) as u32) == b) by (bit_vector);
}

} // verus!

//! Classification of samples by their IEEE-754 double-precision bit pattern.
//!
//! The runtime carries samples as raw `u64` bit patterns. A sample is
//! rejected at ingestion when the encoded number is NaN or negative; both
//! conditions are stated here directly over the bits: the exponent field is
//! all ones with a nonzero fraction (NaN), or the sign bit is set and the
//! pattern is not a zero (a negative number, negative infinity included,
//! but not the negative zero, which compares equal to zero).
use vstd::prelude::*;

verus! {

pub open spec fn f64_sign(b: u64) -> bool {
    (b >> 63) == 1
}

pub open spec fn f64_exp(b: u64) -> u64 {
    (b >> 52) & 0x7FF
}

pub open spec fn f64_frac(b: u64) -> u64 {
    b & 0x000F_FFFF_FFFF_FFFF
}

pub open spec fn f64_is_nan_bits(b: u64) -> bool {
    f64_exp(b) == 0x7FF && f64_frac(b) != 0
}

pub open spec fn f64_is_zero_bits(b: u64) -> bool {
    f64_exp(b) == 0 && f64_frac(b) == 0
}

/// Whether the encoded number is NaN or strictly negative: exactly the
/// samples the registry drops.
pub open spec fn sample_rejected(b: u64) -> bool {
    f64_is_nan_bits(b) || (f64_sign(b) && !f64_is_zero_bits(b))
}

/// Decides `sample_rejected` on a concrete bit pattern.
pub fn is_sample_rejected(b: u64) -> (r: bool)
    ensures
        r == sample_rejected(b),
{
    let sign: bool = (b >> 63) == 1;
    let exp: u64 = (b >> 52) & 0x7FF;
    let frac: u64 = b & 0x000F_FFFF_FFFF_FFFF;
    let nan: bool = exp == 0x7FF && frac != 0;
    let zero: bool = exp == 0 && frac == 0;
    nan || (sign && !zero)
}

} // verus!

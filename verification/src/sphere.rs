use vstd::prelude::*;

use crate::scalar::{
    float_eq, float_le, float_lt, is_nan_bits, mag_bits, sign_bit, Scalar,
};

verus! {

/// Bit pattern of 1.0.
pub const ONE_BITS: u64 = 0x3FF0_0000_0000_0000;

/// Bit pattern of -1.0.
pub const NEG_ONE_BITS: u64 = 0xBFF0_0000_0000_0000;

/// Bit pattern of +0.0.
pub const ZERO_BITS: u64 = 0;

/// How the patterns of 1.0, -1.0 and +0.0 decompose into sign and magnitude.
proof fn lemma_unit_bits()
    ensures
        sign_bit(ONE_BITS) == 0,
        mag_bits(ONE_BITS) == ONE_BITS,
        !is_nan_bits(ONE_BITS),
        sign_bit(NEG_ONE_BITS) == 1,
        mag_bits(NEG_ONE_BITS) == ONE_BITS,
        !is_nan_bits(NEG_ONE_BITS),
        sign_bit(ZERO_BITS) == 0,
        mag_bits(ZERO_BITS) == 0,
        !is_nan_bits(ZERO_BITS),
{
    assert(0x3FF0_0000_0000_0000u64 >> 63 == 0 && 0x3FF0_0000_0000_0000u64
        & 0x7FFF_FFFF_FFFF_FFFF == 0x3FF0_0000_0000_0000 && 0xBFF0_0000_0000_0000u64 >> 63 == 1
        && 0xBFF0_0000_0000_0000u64 & 0x7FFF_FFFF_FFFF_FFFF == 0x3FF0_0000_0000_0000 && 0u64 >> 63
        == 0 && 0u64 & 0x7FFF_FFFF_FFFF_FFFF == 0) by (bit_vector);
}

/// The clamp of a cosine argument to [-1.0, 1.0]: values below -1.0 become
/// -1.0, values above 1.0 become 1.0, everything else — NaN included — passes
/// through unchanged.
pub open spec fn spec_clamp_cos(x: Scalar) -> Scalar {
    if float_lt(x.bits, NEG_ONE_BITS) {
        Scalar { bits: NEG_ONE_BITS }
    } else if float_lt(ONE_BITS, x.bits) {
        Scalar { bits: ONE_BITS }
    } else {
        x
    }
}

/// Clamps the argument of the angular-distance arc cosine to [-1.0, 1.0].
///
/// Rounding can push the inner product `sin·sin + cos·cos·cos` of two unit
/// directions slightly outside [-1, 1], where the arc cosine would return
/// NaN; the clamp is therefore mandatory before taking it.  A NaN argument is
/// returned unchanged.
pub fn clamp_cos(x: Scalar) -> (r: Scalar)
    ensures
        r == spec_clamp_cos(x),
        !is_nan_bits(x.bits) ==> float_le(NEG_ONE_BITS, r.bits) && float_le(r.bits, ONE_BITS),
{
    proof {
        lemma_unit_bits();
        crate::scalar::lemma_sign_bit(x.bits);
    }
    let neg_one = Scalar { bits: NEG_ONE_BITS };
    let one = Scalar { bits: ONE_BITS };
    if x.lt_value(&neg_one) {
        neg_one
    } else if one.lt_value(&x) {
        one
    } else {
        x
    }
}

/// The tangential field component after the singularity-avoidance rule of the
/// kernel: where `sin_theta` is a floating-point zero — the pole lies exactly
/// at or antipodal to the location — the quotient `b_theta / sin_theta` is
/// defined as +0.0 rather than the division artifact; everywhere else the
/// quotient passes through unchanged.
pub open spec fn spec_guard_sin_theta(quotient: Scalar, sin_theta: Scalar) -> Scalar {
    if float_eq(sin_theta.bits, ZERO_BITS) {
        Scalar { bits: ZERO_BITS }
    } else {
        quotient
    }
}

/// Applies the singularity-avoidance rule to an already computed quotient.
pub fn guard_sin_theta(quotient: Scalar, sin_theta: Scalar) -> (r: Scalar)
    ensures
        r == spec_guard_sin_theta(quotient, sin_theta),
{
    proof {
        lemma_unit_bits();
        crate::scalar::lemma_sign_bit(sin_theta.bits);
    }
    let zero = Scalar { bits: ZERO_BITS };
    if sin_theta.eq_value(&zero) {
        zero
    } else {
        quotient
    }
}

} // verus!

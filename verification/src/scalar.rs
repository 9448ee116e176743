use vstd::prelude::*;

verus! {

/// A 64-bit IEEE-754 floating-point value carried as its raw bit pattern.
///
/// The estimation core stores, compares and routes coordinates and field
/// samples without ever doing arithmetic on them; all arithmetic belongs to
/// the unverified numeric shell around the library.  What the core does need
/// from a floating-point value — the meaning of `==`, `<` and `<=` on the
/// encoded numbers, including the NaN and signed-zero cases — is pure bit
/// logic, and is implemented and proved below.
#[derive(Clone, Copy, Debug, PartialEq, Eq, Structural, Hash)]
pub struct Scalar {
    pub bits: u64,
}

/// The magnitude half of a pattern: everything but the sign bit.
pub open spec fn mag_bits(b: u64) -> u64 {
    b & 0x7FFF_FFFF_FFFF_FFFF
}

/// The sign bit of a pattern: 0 for positive values, 1 for negative ones.
pub open spec fn sign_bit(b: u64) -> u64 {
    b >> 63
}

/// Whether a pattern encodes NaN: exponent all ones and fraction nonzero,
/// which is exactly a magnitude above the one of infinity.
pub open spec fn is_nan_bits(b: u64) -> bool {
    mag_bits(b) > 0x7FF0_0000_0000_0000
}

/// A signed key that orders non-NaN patterns exactly as IEEE-754 `<` orders
/// the numbers they encode; +0.0 and -0.0 share the key 0, and the two
/// infinities take the extreme keys.
pub open spec fn order_key(b: u64) -> int {
    if sign_bit(b) == 0 {
        mag_bits(b) as int
    } else {
        -(mag_bits(b) as int)
    }
}

/// `a == b` on the encoded numbers: false when either side is NaN,
/// true for +0.0 against -0.0.
pub open spec fn float_eq(a: u64, b: u64) -> bool {
    !is_nan_bits(a) && !is_nan_bits(b) && order_key(a) == order_key(b)
}

/// `a < b` on the encoded numbers: false when either side is NaN.
pub open spec fn float_lt(a: u64, b: u64) -> bool {
    !is_nan_bits(a) && !is_nan_bits(b) && order_key(a) < order_key(b)
}

/// `a <= b` on the encoded numbers: false when either side is NaN.
pub open spec fn float_le(a: u64, b: u64) -> bool {
    !is_nan_bits(a) && !is_nan_bits(b) && order_key(a) <= order_key(b)
}

/// The sign bit of a pattern, shifted down, is a single bit.
pub proof fn lemma_sign_bit(b: u64)
    ensures
        sign_bit(b) == 0 || sign_bit(b) == 1,
{
    assert((b >> 63) == 0 || (b >> 63) == 1) by (bit_vector);
}

impl Scalar {
    pub fn new(bits: u64) -> (r: Scalar)
        ensures
            r.bits == bits,
    {
        Scalar { bits }
    }

    pub fn is_nan(&self) -> (r: bool)
        ensures
            r == is_nan_bits(self.bits),
    {
        (self.bits & 0x7FFF_FFFF_FFFF_FFFF) > 0x7FF0_0000_0000_0000
    }

    /// Floating-point equality with `other`, decided on the bit patterns.
    pub fn eq_value(&self, other: &Scalar) -> (r: bool)
        ensures
            r == float_eq(self.bits, other.bits),
    {
        proof {
            lemma_sign_bit(self.bits);
            lemma_sign_bit(other.bits);
        }
        if self.is_nan() || other.is_nan() {
            false
        } else {
            let sa = self.bits >> 63;
            let sb = other.bits >> 63;
            let ma = self.bits & 0x7FFF_FFFF_FFFF_FFFF;
            let mb = other.bits & 0x7FFF_FFFF_FFFF_FFFF;
            ma == mb && (sa == sb || ma == 0)
        }
    }

    /// Floating-point `self < other`, decided on the bit patterns.
    pub fn lt_value(&self, other: &Scalar) -> (r: bool)
        ensures
            r == float_lt(self.bits, other.bits),
    {
        proof {
            lemma_sign_bit(self.bits);
            lemma_sign_bit(other.bits);
        }
        if self.is_nan() || other.is_nan() {
            false
        } else {
            let sa = self.bits >> 63;
            let sb = other.bits >> 63;
            let ma = self.bits & 0x7FFF_FFFF_FFFF_FFFF;
            let mb = other.bits & 0x7FFF_FFFF_FFFF_FFFF;
            if sa != sb {
                sa == 1 && !(ma == 0 && mb == 0)
            } else if sa == 0 {
                ma < mb
            } else {
                mb < ma
            }
        }
    }

    /// Floating-point `self <= other`, decided on the bit patterns.
    pub fn le_value(&self, other: &Scalar) -> (r: bool)
        ensures
            r == float_le(self.bits, other.bits),
    {
        if self.is_nan() || other.is_nan() {
            false
        } else {
            !other.lt_value(self)
        }
    }
}

} // verus!

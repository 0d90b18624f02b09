//! Non-NaN 64-bit floating point numbers, held as their IEEE 754 bit
//! pattern so that the library can compare them without float arithmetic.

use vstd::prelude::*;

verus! {

/// Whether a bit pattern encodes a NaN: all exponent bits set and a
/// non-zero mantissa.
pub open spec fn is_nan_bits(bits: u64) -> bool {
    (bits & 0x7ff0_0000_0000_0000u64) == 0x7ff0_0000_0000_0000u64
        && (bits & 0x000f_ffff_ffff_ffffu64) != 0
}

/// Whether a bit pattern encodes positive or negative zero.
pub open spec fn is_zero_bits(bits: u64) -> bool {
    (bits & 0x7fff_ffff_ffff_ffffu64) == 0
}

/// Numeric equality of two non-NaN floats given by their bits: the same
/// bits, or both zeros of either sign.
pub open spec fn float_bits_eq(a: u64, b: u64) -> bool {
    a == b || (is_zero_bits(a) && is_zero_bits(b))
}

/// A 64-bit float that is known not to be NaN.
#[derive(Clone, Copy, Debug)]
pub struct FloatBits {
    bits: u64,
}

impl FloatBits {
    pub closed spec fn spec_to_bits(&self) -> u64 {
        self.bits
    }

    /// A value of this type never holds a NaN.
    #[verifier::type_invariant]
    pub closed spec fn wf(&self) -> bool {
        !is_nan_bits(self.bits)
    }

    /// The float with the given bit pattern, or `None` when it is NaN.
    pub fn from_bits(bits: u64) -> (r: Option<FloatBits>)
        ensures
            r is None <==> is_nan_bits(bits),
            r matches Some(f) ==> f.to_bits() == bits && f.wf(),
    {
        if (bits & 0x7ff0_0000_0000_0000u64) == 0x7ff0_0000_0000_0000u64
            && (bits & 0x000f_ffff_ffff_ffffu64) != 0 {
            None
        } else {
            Some(FloatBits { bits })
        }
    }

    /// The bit pattern of the float.
    #[verifier::when_used_as_spec(spec_to_bits)]
    pub fn to_bits(&self) -> (r: u64)
        ensures
            r == self.spec_to_bits(),
            !is_nan_bits(r),
    {
        proof {
            use_type_invariant(self);
        }
        self.bits
    }

    /// Numeric equality: zeros of both signs are equal.
    pub fn same_value(&self, other: &FloatBits) -> (r: bool)
        ensures
            r == float_bits_eq(self.to_bits(), other.to_bits()),
    {
        let a = self.bits;
        let b = other.bits;
        assert((((a | b) & 0x7fff_ffff_ffff_ffffu64) == 0) == ((a & 0x7fff_ffff_ffff_ffffu64) == 0
            && (b & 0x7fff_ffff_ffff_ffffu64) == 0)) by (bit_vector);
        a == b || ((a | b) & 0x7fff_ffff_ffff_ffffu64) == 0
    }
}

impl PartialEq for FloatBits {
    fn eq(&self, other: &Self) -> (r: bool) {
        self.same_value(other)
    }
}

impl vstd::std_specs::cmp::PartialEqSpecImpl for FloatBits {
    open spec fn obeys_eq_spec() -> bool {
        true
    }

    open spec fn eq_spec(&self, other: &Self) -> bool {
        float_bits_eq(self.to_bits(), other.to_bits())
    }
}

impl Eq for FloatBits {
}

} // verus!

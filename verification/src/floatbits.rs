use vstd::prelude::*;

verus! {

/// Exponent mask of an IEEE-754 single-precision bit pattern.
pub const EXPONENT_MASK: u32 = 0x7f80_0000;

/// Fraction (mantissa) mask of an IEEE-754 single-precision bit pattern.
pub const FRACTION_MASK: u32 = 0x007f_ffff;

/// A single-precision floating-point value, held by its IEEE-754 bit
/// pattern. The configuration model stores every float in this form: the
/// model never computes with the value, it only stores, compares and
/// persists it, and the one rule it enforces — the calibration ratio is
/// never NaN — becomes a statement about plain integers.
#[derive(Clone, Copy, Debug, PartialEq, Eq, Structural)]
pub struct FloatBits {
    pub bits: u32,
}

impl FloatBits {
    /// The bit pattern of +0.0, the canonical "uncalibrated" sentinel.
    pub open spec fn spec_zero() -> FloatBits {
        FloatBits { bits: 0 }
    }

    pub fn zero() -> (r: FloatBits)
        ensures
            r == Self::spec_zero(),
    {
        FloatBits { bits: 0 }
    }

    /// An IEEE-754 single is NaN exactly when its exponent bits are all
    /// ones and its fraction bits are not all zero.
    pub open spec fn spec_is_nan(self) -> bool {
        self.bits & EXPONENT_MASK == EXPONENT_MASK && self.bits & FRACTION_MASK != 0
    }

    pub fn is_nan(self) -> (r: bool)
        ensures
            r == self.spec_is_nan(),
    {
        self.bits & EXPONENT_MASK == EXPONENT_MASK && self.bits & FRACTION_MASK != 0
    }

    /// What a write into `angle_per_pixel` commits: a NaN collapses to the
    /// zero sentinel, every other value passes through verbatim.
    pub open spec fn spec_sanitized(self) -> FloatBits {
        if self.spec_is_nan() {
            Self::spec_zero()
        } else {
            self
        }
    }

    pub fn sanitized(self) -> (r: FloatBits)
        ensures
            r == self.spec_sanitized(),
    {
        if self.is_nan() {
            Self::zero()
        } else {
            self
        }
    }
}

/// Law: whatever bit pattern is written as the calibration ratio, the
/// committed value is never NaN; a NaN input commits exactly what 0.0
/// commits, and any non-NaN input — zero and negative values included —
/// is committed unchanged.
pub proof fn lemma_sanitized_never_nan(v: FloatBits)
    ensures
        !v.spec_sanitized().spec_is_nan(),
        v.spec_is_nan() ==> v.spec_sanitized() == FloatBits::spec_zero(),
        !v.spec_is_nan() ==> v.spec_sanitized() == v,
{
    assert(0u32 & 0x7f80_0000u32 == 0u32) by (bit_vector);
}

} // verus!

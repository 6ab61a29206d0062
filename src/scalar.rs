use vstd::prelude::*;

verus! {

/// The sign bit of a single-precision IEEE-754 bit pattern.
pub const SIGN_BIT: u32 = 0x8000_0000;

/// The bit pattern of positive infinity; any larger magnitude is a NaN.
pub const INFINITY_BITS: u32 = 0x7F80_0000;

/// The bit pattern of `1.0`.
pub const ONE_BITS: u32 = 0x3F80_0000;

/// A single-precision IEEE-754 number, held as its bit pattern.
///
/// The library only ever copies such values, takes their absolute value, or
/// compares them with zero, so it keeps them as raw bits and states those
/// operations over the bits.
#[derive(Clone, Copy, Debug, PartialEq, Eq, Structural, Hash)]
pub struct Scalar {
    pub bits: u32,
}

/// The bits that hold the magnitude (exponent and fraction), sign cleared.
pub open spec fn magnitude_bits(b: u32) -> u32 {
    (b % SIGN_BIT) as u32
}

/// Whether the bit pattern is a NaN.
pub open spec fn is_nan_bits(b: u32) -> bool {
    magnitude_bits(b) > INFINITY_BITS
}

/// Whether the number compares greater than or equal to zero: every non-NaN
/// pattern with a clear sign bit, and negative zero.
pub open spec fn is_nonneg_bits(b: u32) -> bool {
    !is_nan_bits(b) && (b < SIGN_BIT || magnitude_bits(b) == 0)
}

impl Scalar {
    /// Positive zero.
    pub fn zero() -> (r: Scalar)
        ensures
            r.bits == 0,
    {
        Scalar { bits: 0 }
    }

    /// The number one.
    pub fn one() -> (r: Scalar)
        ensures
            r.bits == ONE_BITS,
    {
        Scalar { bits: ONE_BITS }
    }

    /// The number with the given bit pattern.
    pub fn from_bits(bits: u32) -> (r: Scalar)
        ensures
            r.bits == bits,
    {
        Scalar { bits }
    }

    /// The bit pattern of the number.
    pub fn to_bits(&self) -> (r: u32)
        ensures
            r == self.bits,
    {
        self.bits
    }

    /// Whether the number compares greater than or equal to zero.
    pub open spec fn spec_is_nonneg(&self) -> bool {
        is_nonneg_bits(self.bits)
    }

    /// The absolute value: the same pattern with the sign bit cleared.
    pub open spec fn spec_abs(&self) -> Scalar {
        Scalar { bits: magnitude_bits(self.bits) }
    }

    /// Whether the number compares greater than or equal to zero; false for NaN.
    pub fn is_nonneg(&self) -> (r: bool)
        ensures
            r == self.spec_is_nonneg(),
    {
        let m: u32 = if self.bits >= SIGN_BIT { self.bits - SIGN_BIT } else { self.bits };
        m <= INFINITY_BITS && (self.bits < SIGN_BIT || m == 0)
    }

    /// The absolute value, with the sign bit cleared (NaN stays NaN).
    pub fn abs(&self) -> (r: Scalar)
        ensures
            r == self.spec_abs(),
    {
        if self.bits >= SIGN_BIT {
            Scalar { bits: self.bits - SIGN_BIT }
        } else {
            Scalar { bits: self.bits }
        }
    }
}

} // verus!

use vstd::prelude::*;

verus! {

/// Bits of a double that hold the biased exponent.
pub const EXPONENT_MASK: u64 = 0x7ff0_0000_0000_0000;

/// Bits of a double that hold the fraction.
pub const FRACTION_MASK: u64 = 0x000f_ffff_ffff_ffff;

/// Every bit of a double but the sign.
pub const MAGNITUDE_MASK: u64 = 0x7fff_ffff_ffff_ffff;

/// True when the IEEE-754 binary64 value with these bits is a NaN:
/// the exponent is all ones and the fraction is not zero.
pub open spec fn is_nan_bits(b: u64) -> bool {
    (b & EXPONENT_MASK) == EXPONENT_MASK && (b & FRACTION_MASK) != 0
}

/// True when the doubles with bits `a` and `b` compare equal under IEEE-754:
/// neither is a NaN, and either the bits agree or both are zeros (of any sign).
pub open spec fn same_value_bits(a: u64, b: u64) -> bool {
    &&& !is_nan_bits(a)
    &&& !is_nan_bits(b)
    &&& (a == b || ((a | b) & MAGNITUDE_MASK) == 0)
}

/// A price, held as the bit pattern of an IEEE-754 binary64 value.
///
/// Any bit pattern is a price: the library records and compares prices
/// without judging them, NaNs and infinities included.
#[derive(Clone, Copy, Debug)]
pub struct Price {
    pub bits: u64,
}

impl Price {
    /// The price whose binary64 encoding is `bits`.
    pub fn from_bits(bits: u64) -> (r: Price)
        ensures
            r.bits == bits,
    {
        Price { bits }
    }

    /// The binary64 encoding of this price.
    pub fn to_bits(&self) -> (r: u64)
        ensures
            r == self.bits,
    {
        self.bits
    }

    /// Whether this price is a NaN.
    pub fn is_nan(&self) -> (r: bool)
        ensures
            r == is_nan_bits(self.bits),
    {
        (self.bits & EXPONENT_MASK) == EXPONENT_MASK && (self.bits & FRACTION_MASK) != 0
    }

    /// Whether the two prices compare equal as doubles: exact equality,
    /// with no tolerance, under which a NaN equals nothing and the two
    /// zeros are equal.
    pub fn same_value(&self, other: &Price) -> (r: bool)
        ensures
            r == same_value_bits(self.bits, other.bits),
    {
        !self.is_nan() && !other.is_nan() && (self.bits == other.bits || ((self.bits
            | other.bits) & MAGNITUDE_MASK) == 0)
    }
}

} // verus!

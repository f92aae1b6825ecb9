//! Decimal quantities.

use vstd::arithmetic::power2::pow2;
use vstd::prelude::*;

verus! {

/// Encoding of the numeric zero.
pub const ZERO_BITS: u64 = 0;

/// A decimal quantity (an amount, a price, a rate, a total), held as its
/// IEEE-754 binary64 encoding.
///
/// The library stores these encodings, fills in defaults and hands them on.
/// It does no arithmetic on them itself: where a computation needs a product
/// or a sum, the caller passes the operation in. Two decimals are equal when
/// their encodings are.
#[derive(Clone, Copy, Debug, PartialEq, Eq, Structural)]
pub struct Decimal {
    pub bits: u64,
}

impl Decimal {
    /// The numeric zero, which every derived field holds until it is computed.
    pub open spec fn zero() -> Decimal {
        Decimal { bits: ZERO_BITS }
    }

    /// Whether this is the encoding of the whole number `n`. Zero is all
    /// bits clear. Any other whole number has a clear sign bit, an exponent
    /// field `e` from 1 to 2046 and a significand `m` of 53 bits, its top bit
    /// implied, with `m * 2^(e - 1075) == n`.
    pub open spec fn is_whole(self, n: nat) -> bool {
        let exponent = (self.bits >> 52) & 0x7ff;
        let significand = 0x10_0000_0000_0000 + (self.bits & 0xf_ffff_ffff_ffff);
        if self.bits == ZERO_BITS {
            n == 0
        } else {
            &&& self.bits >> 63 == 0
            &&& 1 <= exponent <= 2046
            &&& if exponent >= 1075 {
                significand * pow2((exponent - 1075) as nat) == n
            } else {
                significand == n * pow2((1075 - exponent) as nat)
            }
        }
    }

    /// The decimal with the given encoding.
    pub fn from_bits(bits: u64) -> (r: Decimal)
        ensures
            r.bits == bits,
    {
        Decimal { bits }
    }

    /// The encoding of this decimal.
    pub fn to_bits(self) -> (r: u64)
        ensures
            r == self.bits,
    {
        self.bits
    }
}

impl DeepView for Decimal {
    type V = Decimal;

    open spec fn deep_view(&self) -> Decimal {
        *self
    }
}

} // verus!

//! The values that a document may leave out.

use vstd::arithmetic::power2::{lemma2_to64, lemma2_to64_rest};
use vstd::prelude::*;
use crate::decimal::Decimal;
use crate::terms::Unit;

verus! {

/// Encoding of 1.0, the quantity of a line that gives none.
pub const DEFAULT_AMOUNT_BITS: u64 = 0x3FF0_0000_0000_0000;

/// The unit of a line that gives none.
pub const DEFAULT_UNIT: Unit = Unit::Hours;

/// Encoding of 50.0, the unit price of a line that gives none.
pub const DEFAULT_UNIT_PRICE_BITS: u64 = 0x4049_0000_0000_0000;

/// The defaults of an invoice line, one function for each optional field.
pub struct Defaults {}

impl Defaults {
    /// The amount of a line that gives none: 1.0.
    pub fn get_default_amount() -> (r: Decimal)
        ensures
            r == (Decimal { bits: DEFAULT_AMOUNT_BITS }),
    {
        Decimal { bits: DEFAULT_AMOUNT_BITS }
    }

    /// The unit of a line that gives none: hours.
    pub fn get_default_unit() -> (r: Unit)
        ensures
            r == DEFAULT_UNIT,
    {
        DEFAULT_UNIT
    }

    /// The unit price of a line that gives none: 50.0.
    pub fn get_default_unit_price() -> (r: Decimal)
        ensures
            r == (Decimal { bits: DEFAULT_UNIT_PRICE_BITS }),
    {
        Decimal { bits: DEFAULT_UNIT_PRICE_BITS }
    }
}

/// The three defaults are what their names say: the amount is 1, the unit
/// is hours, the unit price is 50.
pub proof fn defaults_are_one_hours_fifty()
    ensures
        (Decimal { bits: DEFAULT_AMOUNT_BITS }).is_whole(1),
        DEFAULT_UNIT == Unit::Hours,
        (Decimal { bits: DEFAULT_UNIT_PRICE_BITS }).is_whole(50),
{
    lemma2_to64();
    lemma2_to64_rest();
    assert((0x3FF0_0000_0000_0000u64 >> 52) & 0x7ff == 1023) by (bit_vector);
    assert(0x3FF0_0000_0000_0000u64 & 0xf_ffff_ffff_ffff == 0) by (bit_vector);
    assert(0x3FF0_0000_0000_0000u64 >> 63 == 0) by (bit_vector);
    assert((0x4049_0000_0000_0000u64 >> 52) & 0x7ff == 1028) by (bit_vector);
    assert(0x4049_0000_0000_0000u64 & 0xf_ffff_ffff_ffff == 0x9_0000_0000_0000) by (bit_vector);
    assert(0x4049_0000_0000_0000u64 >> 63 == 0) by (bit_vector);
}

} // verus!

//! Splitting and joining of 7-bit and 14-bit values.
use crate::u14::U14;
use crate::u7::U7;
use vstd::prelude::*;

verus! {

/// The view of an optional value.
pub open spec fn opt_view<T: View>(o: Option<T>) -> Option<T::V> {
    match o {
        Some(t) => Some(t@),
        None => None,
    }
}

/// The 14-bit value made of a most significant and a least significant 7-bit half.
pub open spec fn join_7_bit(high: int, low: int) -> int {
    high * 128 + low
}

/// Builds a 14-bit value from its most significant (`high`) and least significant (`low`) 7 bits.
pub fn build_14_bit_value_from_two_7_bit_values(high: U7, low: U7) -> (r: U14)
    ensures
        r@ == join_7_bit(high@ as int, low@ as int),
{
    let h = high.get() as u16;
    let l = low.get() as u16;
    assert((h << 7u16) | l == h * 128 + l && h * 128 + l < 16384) by (bit_vector)
        requires
            h < 128,
            l < 128,
    ;
    U14::new((h << 7u16) | l)
}

/// Returns the most significant 7 bits of a 14-bit value.
pub fn extract_high_7_bit_value_from_14_bit_value(value: U14) -> (r: U7)
    ensures
        r@ == value@ / 128,
{
    let v = value.get();
    assert((v >> 7u16) & 0x7f == v / 128 && v / 128 < 128) by (bit_vector)
        requires
            v < 16384,
    ;
    U7::new(((v >> 7u16) & 0x7f) as u8)
}

/// Returns the least significant 7 bits of a 14-bit value.
pub fn extract_low_7_bit_value_from_14_bit_value(value: U14) -> (r: U7)
    ensures
        r@ == value@ % 128,
{
    let v = value.get();
    assert(v & 0x7f == v % 128) by (bit_vector);
    U7::new((v & 0x7f) as u8)
}

} // verus!

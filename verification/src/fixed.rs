//! Q15 fixed point: 16-bit signed values whose full range stands for `[-1, 1)`.

use vstd::prelude::*;

verus! {

/// Number of fractional bits of a Q15 value.
pub const Q15_SHIFT: u32 = 15;

/// The integer that stands for 1.0, one above the largest Q15 value.
pub const Q15_ONE: i32 = 32768;

/// The product of two Q15 values as a Q15 value: the integer product divided
/// by 2^15, rounded down. The one product that does not fit in 16 bits, that of
/// the two most negative values, wraps round to the most negative value.
pub open spec fn q15_product(a: int, b: int) -> int {
    let p = (a * b) / 32768;
    if p > 32767 {
        p - 65536
    } else {
        p
    }
}

/// The Q15 value nearest to a scaled integer: the integer itself if it fits in
/// 16 bits, else the bound on its side.
pub open spec fn q15_saturated(scaled: int) -> int {
    if scaled > 32767 {
        32767
    } else if scaled < -32768 {
        -32768
    } else {
        scaled
    }
}

/// The rounded-down product lies between the two factors' bounds: scaling a
/// non-negative `b` by a Q15 factor never leaves `[-b, b]`, and never wraps.
pub proof fn lemma_q15_product_bounded(a: int, b: int)
    requires
        -32768 <= a <= 32767,
        0 <= b <= 32767,
    ensures
        q15_product(a, b) == (a * b) / 32768,
        -b <= q15_product(a, b) <= b,
        b > 0 ==> q15_product(a, b) < b,
{
    assert(-32768 * b <= a * b <= 32767 * b) by (nonlinear_arith)
        requires
            -32768 <= a <= 32767,
            0 <= b,
    ;
}

/// Multiplies two Q15 values: `(a * b) >> 15`, kept in 16 bits.
pub fn multfix15(a: i16, b: i16) -> (product: i16)
    ensures
        product == q15_product(a as int, b as int),
        !(a == i16::MIN && b == i16::MIN) ==> product == (a * b) / 32768,
{
    assert(-0x4000_0000 < a * b <= 0x4000_0000) by (nonlinear_arith)
        requires
            -32768 <= a <= 32767,
            -32768 <= b <= 32767,
    ;
    assert(a * b == 0x4000_0000 ==> a == i16::MIN && b == i16::MIN) by (nonlinear_arith)
        requires
            -32768 <= a <= 32767,
            -32768 <= b <= 32767,
    ;
    let wide: i32 = (a as i32) * (b as i32);
    let shifted: i32 = wide >> Q15_SHIFT;
    assert(shifted == wide / 32768) by (bit_vector)
        requires
            shifted == wide >> 15u32,
    ;
    if shifted > 32767 {
        i16::MIN
    } else {
        shifted as i16
    }
}

/// Clamps a scaled integer into the Q15 range.
pub fn saturate_q15(scaled: i32) -> (value: i16)
    ensures
        value == q15_saturated(scaled as int),
{
    if scaled > 32767 {
        i16::MAX
    } else if scaled < -32768 {
        i16::MIN
    } else {
        scaled as i16
    }
}

} // verus!

//! Classification of IEEE-754 binary32 bit patterns.

use vstd::prelude::*;

verus! {

/// Bit pattern of `1.0`.
pub const ONE: u32 = 0x3f80_0000;

/// Bit pattern of `+0.0`.
pub const ZERO: u32 = 0;

/// Bit pattern of `+Infinity`.
pub const INFINITY: u32 = 0x7f80_0000;

/// The sign bit: set for negative numbers, `-0.0`, `-Infinity` and half of the NaNs.
pub open spec fn sign_bit(bits: u32) -> bool {
    bits >= 0x8000_0000
}

/// The eight exponent bits, as a number in `0..=255`.
pub open spec fn exponent_field(bits: u32) -> int {
    (bits as int / 0x80_0000) % 0x100
}

/// The twenty-three fraction bits, as a number below `2^23`.
pub open spec fn fraction_field(bits: u32) -> int {
    bits as int % 0x80_0000
}

pub open spec fn is_nan(bits: u32) -> bool {
    exponent_field(bits) == 0xff && fraction_field(bits) != 0
}

pub open spec fn is_infinite(bits: u32) -> bool {
    exponent_field(bits) == 0xff && fraction_field(bits) == 0
}

pub open spec fn is_zero(bits: u32) -> bool {
    exponent_field(bits) == 0 && fraction_field(bits) == 0
}

pub open spec fn is_subnormal(bits: u32) -> bool {
    exponent_field(bits) == 0 && fraction_field(bits) != 0
}

/// Neither zero, subnormal, infinite nor NaN.
pub open spec fn is_normal(bits: u32) -> bool {
    exponent_field(bits) != 0 && exponent_field(bits) != 0xff
}

/// The number compares greater than zero: `+Infinity` does, `+0.0`, `-0.0`
/// and every NaN do not.
pub open spec fn is_positive(bits: u32) -> bool {
    !sign_bit(bits) && !is_nan(bits) && !is_zero(bits)
}

/// Every bit pattern falls in exactly one of the five classes.
pub proof fn lemma_classes_partition(bits: u32)
    ensures
        is_normal(bits) <==> !(is_nan(bits) || is_infinite(bits) || is_zero(bits) || is_subnormal(
            bits,
        )),
        !(is_nan(bits) && is_infinite(bits)),
        !(is_zero(bits) && is_subnormal(bits)),
        !((is_nan(bits) || is_infinite(bits)) && (is_zero(bits) || is_subnormal(bits))),
{
}

/// The classes as ranges of the magnitude, the pattern with its sign bit cleared.
pub proof fn lemma_classes_by_magnitude(bits: u32)
    ensures
        ({
            let magnitude = if sign_bit(bits) { bits - 0x8000_0000 } else { bits as int };
            &&& is_zero(bits) <==> magnitude == 0
            &&& is_subnormal(bits) <==> 0 < magnitude < 0x80_0000
            &&& is_normal(bits) <==> 0x80_0000 <= magnitude < 0x7f80_0000
            &&& is_infinite(bits) <==> magnitude == 0x7f80_0000
            &&& is_nan(bits) <==> magnitude > 0x7f80_0000
        }),
{
}

/// One is a normal number, zero is not.
pub proof fn lemma_constants()
    ensures
        is_normal(ONE),
        is_positive(ONE),
        is_zero(ZERO),
        !is_positive(ZERO),
        is_infinite(INFINITY),
        is_positive(INFINITY),
{
}

/// Tells whether `bits` is a normal number.
pub fn normal(bits: u32) -> (r: bool)
    ensures
        r == is_normal(bits),
{
    let e: u32 = (bits >> 23) & 0xff;
    assert(e == (bits as int / 0x80_0000) % 0x100) by (bit_vector)
        requires
            e == (bits >> 23) & 0xff,
    ;
    e != 0 && e != 0xff
}

/// Tells whether `bits` compares greater than zero.
pub fn positive(bits: u32) -> (r: bool)
    ensures
        r == is_positive(bits),
{
    proof {
        lemma_classes_by_magnitude(bits);
    }
    bits != 0 && bits <= INFINITY
}

} // verus!

//! Normalisation of white-balance gains.
//!
//! A gain vector has one gain per sensor channel; channel 1 is the reference
//! channel. Normalising divides every gain by the reference gain, and puts
//! one in place of every gain that is not a normal number.

use vstd::prelude::*;
use crate::arith::{
    accepts_all, computes, quotient_by_one_is_identity, self_quotient_is_one, BinOp,
};
use crate::ieee::{
    is_infinite, is_nan, is_normal, is_subnormal, is_zero, lemma_classes_partition,
    lemma_constants, normal, ONE,
};

verus! {

/// Index of the reference channel in a gain vector.
pub const REFERENCE_CHANNEL: usize = 1;

/// `r` is what normalising makes of the gain `val` beside the reference gain
/// `unity`: one if `val` is not a normal number, else a result of `val / unity`.
/// The divisor is the reference gain as it was given, normal or not.
pub open spec fn normalized_gain<A: Fn(BinOp, u32, u32) -> u32>(
    arith: &A,
    val: u32,
    unity: u32,
    r: u32,
) -> bool {
    if is_normal(val) {
        computes(arith, BinOp::Div, val, unity, r)
    } else {
        r == ONE
    }
}

/// `out` is a normalisation of `vals`.
pub open spec fn normalized<A: Fn(BinOp, u32, u32) -> u32>(
    arith: &A,
    vals: [u32; 4],
    out: [u32; 4],
) -> bool {
    forall|i: int|
        0 <= i < 4 ==> normalized_gain(arith, vals[i], vals[REFERENCE_CHANNEL as int], #[trigger] out[i])
}

/// Normalises a gain vector.
///
/// The unit is asked for one division per normal gain and for nothing else.
pub fn normalize_wbs<A: Fn(BinOp, u32, u32) -> u32>(vals: [u32; 4], arith: &A) -> (out: [u32; 4])
    requires
        accepts_all(arith),
    ensures
        normalized(arith, vals, out),
{
    let unity: u32 = vals[REFERENCE_CHANNEL];
    let mut out: [u32; 4] = [ONE, ONE, ONE, ONE];
    let mut i: usize = 0;
    while i < 4
        invariant
            i <= 4,
            accepts_all(arith),
            unity == vals[REFERENCE_CHANNEL as int],
            forall|k: int| i <= k < 4 ==> out[k] == ONE,
            forall|k: int|
                0 <= k < i ==> normalized_gain(arith, vals[k], unity, #[trigger] out[k]),
        decreases 4 - i,
    {
        if normal(vals[i]) {
            let q: u32 = arith(BinOp::Div, vals[i], unity);
            out[i] = q;
        }
        i += 1;
    }
    out
}

/// A gain that is NaN, infinite, zero or subnormal comes out as one,
/// whatever the other gains are and whatever the unit computes.
pub proof fn lemma_irregular_gain_becomes_one<A: Fn(BinOp, u32, u32) -> u32>(
    arith: &A,
    vals: [u32; 4],
    out: [u32; 4],
    i: int,
)
    requires
        normalized(arith, vals, out),
        0 <= i < 4,
        is_nan(vals[i]) || is_infinite(vals[i]) || is_zero(vals[i]) || is_subnormal(vals[i]),
    ensures
        out[i] == ONE,
{
    lemma_classes_partition(vals[i]);
    assert(normalized_gain(arith, vals[i], vals[REFERENCE_CHANNEL as int], out[i]));
}

/// The reference channel comes out as exactly one for every gain vector, given
/// a unit that divides a normal number by itself to one.
pub proof fn lemma_reference_gain_is_one<A: Fn(BinOp, u32, u32) -> u32>(
    arith: &A,
    vals: [u32; 4],
    out: [u32; 4],
)
    requires
        normalized(arith, vals, out),
        self_quotient_is_one(arith),
    ensures
        out[REFERENCE_CHANNEL as int] == ONE,
{
    let unity = vals[REFERENCE_CHANNEL as int];
    assert(normalized_gain(arith, unity, unity, out[REFERENCE_CHANNEL as int]));
}

/// Normalising a normalised vector gives it back, provided all four of its
/// gains are normal numbers, given a unit that divides a normal number by
/// itself to one and by one to itself.
///
/// A quotient that left the normal range (by overflow, by underflow, or by a
/// reference gain that was not normal) is put to one by the second pass, so
/// such a vector is not a fixed point.
pub proof fn lemma_normalize_idempotent<A: Fn(BinOp, u32, u32) -> u32>(
    arith: &A,
    vals: [u32; 4],
    once: [u32; 4],
    twice: [u32; 4],
)
    requires
        normalized(arith, vals, once),
        normalized(arith, once, twice),
        self_quotient_is_one(arith),
        quotient_by_one_is_identity(arith),
        forall|i: int| 0 <= i < 4 ==> is_normal(#[trigger] once[i]),
    ensures
        twice == once,
{
    lemma_reference_gain_is_one(arith, vals, once);
    assert forall|i: int| 0 <= i < 4 implies twice[i] == once[i] by {
        assert(normalized_gain(arith, once[i], once[REFERENCE_CHANNEL as int], twice[i]));
    }
    assert(twice@ =~= once@);
}

/// A normalised vector with a gain outside the normal range is changed by a
/// second pass: that gain becomes one.
pub proof fn lemma_normalize_not_idempotent<A: Fn(BinOp, u32, u32) -> u32>(
    arith: &A,
    once: [u32; 4],
    twice: [u32; 4],
    i: int,
)
    requires
        normalized(arith, once, twice),
        0 <= i < 4,
        !is_normal(once[i]),
    ensures
        twice[i] == ONE,
        twice[i] != once[i],
{
    lemma_constants();
    assert(normalized_gain(arith, once[i], once[REFERENCE_CHANNEL as int], twice[i]));
}

} // verus!

//! The caller's arithmetic unit, and the sums the library builds from it.
//!
//! Rounding arithmetic is not part of this library. Each function that needs it
//! takes an `arith` function from an operation and two bit patterns to the bit
//! pattern of the result, and states which operations it asked for, in which
//! order, on which operands.

use vstd::prelude::*;
use crate::ieee::{is_normal, is_positive, positive, ONE, ZERO};

verus! {

/// The operations asked of the arithmetic unit.
#[derive(Clone, Copy, Debug, PartialEq, Eq)]
pub enum BinOp {
    /// `a + b`
    Add,
    /// `a * b`
    Mul,
    /// `a / b`
    Div,
}

/// The unit may be asked for any operation on any two operands.
pub open spec fn accepts_all<A: Fn(BinOp, u32, u32) -> u32>(arith: &A) -> bool {
    forall|op: BinOp, a: u32, b: u32| #[trigger] arith.requires((op, a, b))
}

/// `r` is a result the unit may give for `a op b`.
pub open spec fn computes<A: Fn(BinOp, u32, u32) -> u32>(
    arith: &A,
    op: BinOp,
    a: u32,
    b: u32,
    r: u32,
) -> bool {
    arith.ensures((op, a, b), r)
}

/// A normal number divided by itself is one.
pub open spec fn self_quotient_is_one<A: Fn(BinOp, u32, u32) -> u32>(arith: &A) -> bool {
    forall|x: u32, r: u32| is_normal(x) && #[trigger] computes(arith, BinOp::Div, x, x, r) ==> r == ONE
}

/// A normal number divided by one is itself.
pub open spec fn quotient_by_one_is_identity<A: Fn(BinOp, u32, u32) -> u32>(arith: &A) -> bool {
    forall|x: u32, r: u32| is_normal(x) && #[trigger] computes(arith, BinOp::Div, x, ONE, r) ==> r == x
}

/// `r` is a result of `0 + w[0]*v[0] + ... + w[n-1]*v[n-1]`, each product
/// added to the running sum from left to right.
pub open spec fn weighted_sum<A: Fn(BinOp, u32, u32) -> u32>(
    arith: &A,
    w: Seq<u32>,
    v: Seq<u32>,
    n: int,
    r: u32,
) -> bool
    decreases n,
{
    if n <= 0 {
        r == ZERO
    } else {
        exists|acc: u32, prod: u32|
            #![trigger computes(arith, BinOp::Add, acc, prod, r)]
            weighted_sum(arith, w, v, n - 1, acc) && computes(
                arith,
                BinOp::Mul,
                w[n - 1],
                v[n - 1],
                prod,
            ) && computes(arith, BinOp::Add, acc, prod, r)
    }
}

/// `r` is a result of `0 + Σ w[k]/g[k]` over the first `n` channels whose gain
/// `g[k]` is greater than zero, added from left to right; the other channels
/// are passed over.
pub open spec fn gain_divided_sum<A: Fn(BinOp, u32, u32) -> u32>(
    arith: &A,
    w: Seq<u32>,
    g: Seq<u32>,
    n: int,
    r: u32,
) -> bool
    decreases n,
{
    if n <= 0 {
        r == ZERO
    } else if is_positive(g[n - 1]) {
        exists|acc: u32, quot: u32|
            #![trigger computes(arith, BinOp::Add, acc, quot, r)]
            gain_divided_sum(arith, w, g, n - 1, acc) && computes(
                arith,
                BinOp::Div,
                w[n - 1],
                g[n - 1],
                quot,
            ) && computes(arith, BinOp::Add, acc, quot, r)
    } else {
        gain_divided_sum(arith, w, g, n - 1, r)
    }
}

/// Multiplies `w` and `v` entry by entry and adds the products to a sum that
/// starts at zero.
pub fn dot<const N: usize, A: Fn(BinOp, u32, u32) -> u32>(
    arith: &A,
    w: &[u32; N],
    v: &[u32; N],
) -> (r: u32)
    requires
        accepts_all(arith),
    ensures
        weighted_sum(arith, w@, v@, N as int, r),
{
    let mut acc: u32 = ZERO;
    let mut k: usize = 0;
    while k < N
        invariant
            k <= N,
            accepts_all(arith),
            weighted_sum(arith, w@, v@, k as int, acc),
        decreases N - k,
    {
        let prod: u32 = arith(BinOp::Mul, w[k], v[k]);
        let next: u32 = arith(BinOp::Add, acc, prod);
        assert(computes(arith, BinOp::Add, acc, prod, next));
        acc = next;
        k += 1;
    }
    acc
}

/// Divides each `w[k]` by its gain `g[k]` and adds the quotients to a sum that
/// starts at zero, passing over the channels whose gain is not greater than zero.
pub fn dot_over_gains<const N: usize, A: Fn(BinOp, u32, u32) -> u32>(
    arith: &A,
    w: &[u32; N],
    g: &[u32; N],
) -> (r: u32)
    requires
        accepts_all(arith),
    ensures
        gain_divided_sum(arith, w@, g@, N as int, r),
{
    let mut acc: u32 = ZERO;
    let mut k: usize = 0;
    while k < N
        invariant
            k <= N,
            accepts_all(arith),
            gain_divided_sum(arith, w@, g@, k as int, acc),
        decreases N - k,
    {
        if positive(g[k]) {
            let quot: u32 = arith(BinOp::Div, w[k], g[k]);
            let next: u32 = arith(BinOp::Add, acc, quot);
            assert(computes(arith, BinOp::Add, acc, quot, next));
            acc = next;
        }
        k += 1;
    }
    acc
}

} // verus!

//! The per-pixel conversions.
//!
//! Each takes the samples of one pixel and gives the samples of one pixel; no
//! pixel's result depends on another pixel.

use vstd::prelude::*;
use crate::arith::{accepts_all, computes, dot, weighted_sum, BinOp};

verus! {

/// `out[k]` is a result of `pix[k] * mul[k]` for each of the four channels.
pub open spec fn scaled<A: Fn(BinOp, u32, u32) -> u32>(
    arith: &A,
    pix: [u32; 4],
    mul: [u32; 4],
    out: [u32; 4],
) -> bool {
    forall|k: int| 0 <= k < 4 ==> computes(arith, BinOp::Mul, pix[k], mul[k], #[trigger] out[k])
}

/// `out` is a result of the matrix `m` applied to the vector `v`: each
/// `out[r]` is the sum of row `r` weighted by `v`, accumulated from zero.
pub open spec fn matrix_applied<const C: usize, A: Fn(BinOp, u32, u32) -> u32>(
    arith: &A,
    m: [[u32; C]; 3],
    v: [u32; C],
    out: [u32; 3],
) -> bool {
    forall|r: int| 0 <= r < 3 ==> weighted_sum(arith, m[r]@, v@, C as int, #[trigger] out[r])
}

/// `xyz` is a tristimulus triple of the camera pixel `pix`: the samples scaled
/// by the gains `mul`, then the matrix `cmatrix` applied.
pub open spec fn camera_xyz<A: Fn(BinOp, u32, u32) -> u32>(
    arith: &A,
    mul: [u32; 4],
    cmatrix: [[u32; 4]; 3],
    pix: [u32; 4],
    xyz: [u32; 3],
) -> bool {
    exists|balanced: [u32; 4]|
        #![trigger scaled(arith, pix, mul, balanced)]
        scaled(arith, pix, mul, balanced) && matrix_applied(arith, cmatrix, balanced, xyz)
}

/// `lab` is a perceptual triple of the camera pixel `pix`: what the transfer
/// function `xyz_to_lab` makes of a tristimulus triple of `pix`.
pub open spec fn camera_lab<A: Fn(BinOp, u32, u32) -> u32, L: Fn([u32; 3]) -> [u32; 3]>(
    arith: &A,
    xyz_to_lab: &L,
    mul: [u32; 4],
    cmatrix: [[u32; 4]; 3],
    pix: [u32; 4],
    lab: [u32; 3],
) -> bool {
    exists|xyz: [u32; 3]|
        #![trigger xyz_to_lab.ensures((xyz,), lab)]
        camera_xyz(arith, mul, cmatrix, pix, xyz) && xyz_to_lab.ensures((xyz,), lab)
}

/// `rgb` is a display triple of the perceptual pixel `pix`: the matrix
/// `rgbmatrix` applied to what the transfer function `lab_to_xyz` makes of `pix`.
pub open spec fn lab_rgb<A: Fn(BinOp, u32, u32) -> u32, L: Fn([u32; 3]) -> [u32; 3]>(
    arith: &A,
    lab_to_xyz: &L,
    rgbmatrix: [[u32; 3]; 3],
    pix: [u32; 3],
    rgb: [u32; 3],
) -> bool {
    exists|xyz: [u32; 3]|
        #![trigger lab_to_xyz.ensures((pix,), xyz)]
        lab_to_xyz.ensures((pix,), xyz) && matrix_applied(arith, rgbmatrix, xyz, rgb)
}

/// The function may be called on every triple.
pub open spec fn accepts_all_triples<L: Fn([u32; 3]) -> [u32; 3]>(f: &L) -> bool {
    forall|t: [u32; 3]| #[trigger] f.requires((t,))
}

/// Applies a matrix of three rows to a vector.
pub fn apply_matrix<const C: usize, A: Fn(BinOp, u32, u32) -> u32>(
    arith: &A,
    m: &[[u32; C]; 3],
    v: &[u32; C],
) -> (out: [u32; 3])
    requires
        accepts_all(arith),
    ensures
        matrix_applied(arith, *m, *v, out),
{
    let x: u32 = dot(arith, &m[0], v);
    let y: u32 = dot(arith, &m[1], v);
    let z: u32 = dot(arith, &m[2], v);
    [x, y, z]
}

/// Scales the four samples of a camera pixel by the gains and applies the
/// colour matrix.
pub fn camera_to_xyz<A: Fn(BinOp, u32, u32) -> u32>(
    mul: [u32; 4],
    cmatrix: [[u32; 4]; 3],
    pixin: [u32; 4],
    arith: &A,
) -> (xyz: [u32; 3])
    requires
        accepts_all(arith),
    ensures
        camera_xyz(arith, mul, cmatrix, pixin, xyz),
{
    let r: u32 = arith(BinOp::Mul, pixin[0], mul[0]);
    let g: u32 = arith(BinOp::Mul, pixin[1], mul[1]);
    let b: u32 = arith(BinOp::Mul, pixin[2], mul[2]);
    let e: u32 = arith(BinOp::Mul, pixin[3], mul[3]);
    let balanced: [u32; 4] = [r, g, b, e];
    assert(scaled(arith, pixin, mul, balanced));
    apply_matrix(arith, &cmatrix, &balanced)
}

/// Converts one camera pixel to the perceptual space.
pub fn camera_to_lab<A: Fn(BinOp, u32, u32) -> u32, L: Fn([u32; 3]) -> [u32; 3]>(
    mul: [u32; 4],
    cmatrix: [[u32; 4]; 3],
    pixin: [u32; 4],
    arith: &A,
    xyz_to_lab: &L,
) -> (lab: [u32; 3])
    requires
        accepts_all(arith),
        accepts_all_triples(xyz_to_lab),
    ensures
        camera_lab(arith, xyz_to_lab, mul, cmatrix, pixin, lab),
{
    let xyz: [u32; 3] = camera_to_xyz(mul, cmatrix, pixin, arith);
    xyz_to_lab(xyz)
}

/// Converts one perceptual pixel to display colour.
pub fn lab_to_rgb<A: Fn(BinOp, u32, u32) -> u32, L: Fn([u32; 3]) -> [u32; 3]>(
    rgbmatrix: [[u32; 3]; 3],
    pixin: [u32; 3],
    arith: &A,
    lab_to_xyz: &L,
) -> (rgb: [u32; 3])
    requires
        accepts_all(arith),
        accepts_all_triples(lab_to_xyz),
    ensures
        lab_rgb(arith, lab_to_xyz, rgbmatrix, pixin, rgb),
{
    let xyz: [u32; 3] = lab_to_xyz(pixin);
    apply_matrix(arith, &rgbmatrix, &xyz)
}

} // verus!

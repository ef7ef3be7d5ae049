//! Fixed reference matrices for the D65 illuminant, as binary32 bit patterns.

use vstd::prelude::*;

verus! {

/// Linear sRGB to tristimulus, with a fourth column of zeros for a sensor
/// channel that the reference space does not have.
///
/// ```text
/// 0.4124564  0.3575761  0.1804375  0
/// 0.2126729  0.7151522  0.0721750  0
/// 0.0193339  0.1191920  0.9503041  0
/// ```
pub const SRGB_D65_43: [[u32; 4]; 3] = [
    [0x3ed3_2d7c, 0x3eb7_1437, 0x3e38_c49c, 0],
    [0x3e59_c6ed, 0x3f37_1437, 0x3d93_d07d, 0],
    [0x3c9e_6221, 0x3df4_1aef, 0x3f73_4721, 0],
];

/// Tristimulus to linear sRGB.
///
/// ```text
///  3.2404542  -1.5371385  -0.4985314
/// -0.9692660   1.8760108   0.0415560
///  0.0556434  -0.2040259   1.0572252
/// ```
pub const XYZ_D65_33: [[u32; 3]; 3] = [
    [0x404f_639a, 0xbfc4_c0f4, 0xbeff_3f82],
    [0xbf78_21d1, 0x3ff0_211f, 0x3d2a_36a0],
    [0x3d63_ea55, 0xbe50_ec2a, 0x3f87_5328],
];

/// Tristimulus to linear sRGB, with a fourth row of zeros for a sensor channel
/// that the reference space does not have.
pub const XYZ_D65_34: [[u32; 3]; 4] = [
    [0x404f_639a, 0xbfc4_c0f4, 0xbeff_3f82],
    [0xbf78_21d1, 0x3ff0_211f, 0x3d2a_36a0],
    [0x3d63_ea55, 0xbe50_ec2a, 0x3f87_5328],
    [0, 0, 0],
];

} // verus!

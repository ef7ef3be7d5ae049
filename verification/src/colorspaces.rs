//! The camera colour profile and the two pipeline stages that use it.

use vstd::prelude::*;
use crate::arith::{
    accepts_all, computes, dot, dot_over_gains, gain_divided_sum, self_quotient_is_one,
    weighted_sum, BinOp,
};
use crate::buffer::{quad, triple, OpBuffer};
use crate::ieee::{is_normal, normal, ONE, ZERO};
use crate::pixel::{accepts_all_triples, camera_lab, camera_to_lab, lab_rgb, lab_to_rgb};
use crate::reference::{SRGB_D65_43, XYZ_D65_33, XYZ_D65_34};
use crate::source::{ImageSource, RawImage};
use crate::whitebalance::{
    lemma_reference_gain_is_one, normalize_wbs, normalized, normalized_gain, REFERENCE_CHANNEL,
};

verus! {

/// Gains of a profile built for an image that is no raw sensor image: one for
/// the three channels of the reference space, zero for the fourth.
pub const GENERIC_GAINS: [u32; 4] = [ONE, ONE, ONE, ZERO];

/// Gains applied to a monochrome buffer.
pub const UNIT_GAINS: [u32; 4] = [ONE, ONE, ONE, ONE];

/// The colour profile of a camera: its matrices and the white balance in use.
///
/// Converts camera samples to the perceptual space.
#[derive(Clone, Copy, Debug)]
pub struct OpToLab {
    /// Camera channels to tristimulus: three rows of four.
    pub cam_to_xyz: [[u32; 4]; 3],
    /// The row-normalised variant of `cam_to_xyz`; the matrix that converts
    /// samples.
    pub cam_to_xyz_normalized: [[u32; 4]; 3],
    /// Tristimulus to camera channels: four rows of three.
    pub xyz_to_cam: [[u32; 3]; 4],
    /// White-balance gains, one per channel, normalised.
    pub wb_coeffs: [u32; 4],
}

/// Converts the perceptual space to display colour. It keeps no state.
#[derive(Clone, Copy, Debug)]
pub struct OpFromLab {
}

/// The gains a raw image's profile starts from: the stored gains, unless one
/// of the first three is not a normal number; then the neutral gains.
pub open spec fn chosen_gains(raw: RawImage) -> [u32; 4] {
    if is_normal(raw.wb_coeffs[0]) && is_normal(raw.wb_coeffs[1]) && is_normal(raw.wb_coeffs[2]) {
        raw.wb_coeffs
    } else {
        raw.neutralwb
    }
}

/// The profile of an image that is no raw sensor image: the D65 reference
/// matrices throughout.
pub open spec fn generic_profile() -> OpToLab {
    OpToLab {
        cam_to_xyz: SRGB_D65_43,
        cam_to_xyz_normalized: SRGB_D65_43,
        xyz_to_cam: XYZ_D65_34,
        wb_coeffs: GENERIC_GAINS,
    }
}

/// `profile` is a profile of the image `img`.
///
/// A raw image gives its own matrices, and its chosen gains normalised. Any
/// other image gives the generic profile.
pub open spec fn profile_of<A: Fn(BinOp, u32, u32) -> u32>(
    arith: &A,
    img: ImageSource,
    profile: OpToLab,
) -> bool {
    match img {
        ImageSource::Raw(raw) => {
            &&& profile.cam_to_xyz == raw.cam_to_xyz
            &&& profile.cam_to_xyz_normalized == raw.cam_to_xyz_normalized
            &&& profile.xyz_to_cam == raw.xyz_to_cam
            &&& normalized(arith, chosen_gains(raw), profile.wb_coeffs)
        },
        ImageSource::Other => profile == generic_profile(),
    }
}

/// `out` is `xyz` with its second component divided by `tint`.
pub open spec fn tinted<A: Fn(BinOp, u32, u32) -> u32>(
    arith: &A,
    xyz: [u32; 3],
    tint: u32,
    out: [u32; 3],
) -> bool {
    out[0] == xyz[0] && computes(arith, BinOp::Div, xyz[1], tint, out[1]) && out[2] == xyz[2]
}

/// `r` is a result of `1 / (row · xyz)`.
pub open spec fn reciprocal_response<A: Fn(BinOp, u32, u32) -> u32>(
    arith: &A,
    row: [u32; 3],
    xyz: [u32; 3],
    r: u32,
) -> bool {
    exists|response: u32|
        #![trigger computes(arith, BinOp::Div, ONE, response, r)]
        weighted_sum(arith, row@, xyz@, 3, response) && computes(
            arith,
            BinOp::Div,
            ONE,
            response,
            r,
        )
}

/// `raw[i]` is, for each channel, the reciprocal of the channel's response to `xyz`.
pub open spec fn reciprocal_responses<A: Fn(BinOp, u32, u32) -> u32>(
    arith: &A,
    xyz_to_cam: [[u32; 3]; 4],
    xyz: [u32; 3],
    raw: [u32; 4],
) -> bool {
    forall|i: int| 0 <= i < 4 ==> reciprocal_response(arith, xyz_to_cam[i], xyz, #[trigger] raw[i])
}

/// `gains` balance the illuminant `xyz` under `tint`: the normalised
/// reciprocals of the camera's response to the tinted illuminant.
pub open spec fn balances<A: Fn(BinOp, u32, u32) -> u32>(
    arith: &A,
    xyz_to_cam: [[u32; 3]; 4],
    xyz: [u32; 3],
    tint: u32,
    gains: [u32; 4],
) -> bool {
    exists|adjusted: [u32; 3], raw: [u32; 4]|
        #![trigger tinted(arith, xyz, tint, adjusted), normalized(arith, raw, gains)]
        tinted(arith, xyz, tint, adjusted) && reciprocal_responses(
            arith,
            xyz_to_cam,
            adjusted,
            raw,
        ) && normalized(arith, raw, gains)
}

/// The function may be called on every temperature.
pub open spec fn accepts_all_temperatures<T: Fn(u32) -> [u32; 3]>(f: &T) -> bool {
    forall|t: u32| #[trigger] f.requires((t,))
}

/// The function may be called on every tristimulus triple.
pub open spec fn accepts_all_illuminants<T: Fn([u32; 3]) -> (u32, u32)>(f: &T) -> bool {
    forall|t: [u32; 3]| #[trigger] f.requires((t,))
}

impl OpToLab {
    /// Builds the profile of an image.
    ///
    /// A raw image gives its own matrices, and its gains normalised: the
    /// stored ones, or the neutral ones where a stored gain of the first three
    /// channels is not a normal number. Any other image gives the D65
    /// reference matrices and gains of one, one, one and zero.
    pub fn new<A: Fn(BinOp, u32, u32) -> u32>(img: &ImageSource, arith: &A) -> (r: OpToLab)
        requires
            accepts_all(arith),
        ensures
            profile_of(arith, *img, r),
    {
        match img {
            ImageSource::Raw(raw) => {
                let coeffs: [u32; 4] = if !normal(raw.wb_coeffs[0]) || !normal(raw.wb_coeffs[1])
                    || !normal(raw.wb_coeffs[2]) {
                    normalize_wbs(raw.neutralwb, arith)
                } else {
                    normalize_wbs(raw.wb_coeffs, arith)
                };
                OpToLab {
                    cam_to_xyz: raw.cam_to_xyz,
                    cam_to_xyz_normalized: raw.cam_to_xyz_normalized,
                    xyz_to_cam: raw.xyz_to_cam,
                    wb_coeffs: coeffs,
                }
            },
            ImageSource::Other => OpToLab {
                cam_to_xyz: SRGB_D65_43,
                cam_to_xyz_normalized: SRGB_D65_43,
                xyz_to_cam: XYZ_D65_34,
                wb_coeffs: GENERIC_GAINS,
            },
        }
    }

    /// Only the gains of `other` may differ from this profile's.
    pub open spec fn same_matrices(&self, other: &OpToLab) -> bool {
        &&& self.cam_to_xyz == other.cam_to_xyz
        &&& self.cam_to_xyz_normalized == other.cam_to_xyz_normalized
        &&& self.xyz_to_cam == other.xyz_to_cam
    }

    /// Sets the gains to those that balance the illuminant `xyz` under `tint`.
    ///
    /// For each channel the unit is asked for the channel's response to the
    /// tinted illuminant and its reciprocal; the four are then normalised. A
    /// response of zero thus ends as a gain of one wherever the unit's
    /// reciprocal of zero is infinite.
    pub fn set_illuminant<A: Fn(BinOp, u32, u32) -> u32>(
        &mut self,
        xyz: [u32; 3],
        tint: u32,
        arith: &A,
    )
        requires
            accepts_all(arith),
        ensures
            final(self).same_matrices(old(self)),
            balances(arith, old(self).xyz_to_cam, xyz, tint, final(self).wb_coeffs),
    {
        let y: u32 = arith(BinOp::Div, xyz[1], tint);
        let adjusted: [u32; 3] = [xyz[0], y, xyz[2]];
        let mut raw: [u32; 4] = [ZERO, ZERO, ZERO, ZERO];
        let mut i: usize = 0;
        while i < 4
            invariant
                i <= 4,
                accepts_all(arith),
                *self == *old(self),
                forall|k: int|
                    0 <= k < i ==> reciprocal_response(
                        arith,
                        self.xyz_to_cam[k],
                        adjusted,
                        #[trigger] raw[k],
                    ),
            decreases 4 - i,
        {
            let response: u32 = dot(arith, &self.xyz_to_cam[i], &adjusted);
            let gain: u32 = arith(BinOp::Div, ONE, response);
            assert(computes(arith, BinOp::Div, ONE, response, gain));
            raw[i] = gain;
            i += 1;
        }
        let gains: [u32; 4] = normalize_wbs(raw, arith);
        assert(tinted(arith, xyz, tint, adjusted));
        assert(reciprocal_responses(arith, self.xyz_to_cam, adjusted, raw));
        self.wb_coeffs = gains;
    }

    /// Sets the white balance by colour temperature and tint.
    ///
    /// `temp_to_xyz` gives the tristimulus triple of the daylight illuminant
    /// of a temperature.
    pub fn set_temp<T: Fn(u32) -> [u32; 3], A: Fn(BinOp, u32, u32) -> u32>(
        &mut self,
        temp: u32,
        tint: u32,
        temp_to_xyz: &T,
        arith: &A,
    )
        requires
            accepts_all_temperatures(temp_to_xyz),
            accepts_all(arith),
        ensures
            final(self).same_matrices(old(self)),
            exists|xyz: [u32; 3]|
                #![trigger temp_to_xyz.ensures((temp,), xyz)]
                temp_to_xyz.ensures((temp,), xyz) && balances(
                    arith,
                    old(self).xyz_to_cam,
                    xyz,
                    tint,
                    final(self).wb_coeffs,
                ),
    {
        let xyz: [u32; 3] = temp_to_xyz(temp);
        self.set_illuminant(xyz, tint, arith);
    }

    /// `xyz` is the illuminant that the gains balance, as far as the forward
    /// matrix tells: each component the sum of `cam_to_xyz[c][j] / wb_coeffs[j]`
    /// over the channels `j` whose gain is greater than zero.
    pub open spec fn balanced_illuminant<A: Fn(BinOp, u32, u32) -> u32>(
        &self,
        arith: &A,
        xyz: [u32; 3],
    ) -> bool {
        forall|c: int|
            0 <= c < 3 ==> gain_divided_sum(
                arith,
                self.cam_to_xyz[c]@,
                self.wb_coeffs@,
                4,
                #[trigger] xyz[c],
            )
    }

    /// Reconstructs the illuminant that the gains balance. Channels whose gain
    /// is not greater than zero are passed over.
    pub fn illuminant<A: Fn(BinOp, u32, u32) -> u32>(&self, arith: &A) -> (xyz: [u32; 3])
        requires
            accepts_all(arith),
        ensures
            self.balanced_illuminant(arith, xyz),
    {
        let x: u32 = dot_over_gains(arith, &self.cam_to_xyz[0], &self.wb_coeffs);
        let y: u32 = dot_over_gains(arith, &self.cam_to_xyz[1], &self.wb_coeffs);
        let z: u32 = dot_over_gains(arith, &self.cam_to_xyz[2], &self.wb_coeffs);
        [x, y, z]
    }

    /// Gives the colour temperature and tint of the white balance in use.
    ///
    /// `xyz_to_temp` gives temperature and tint of a tristimulus triple.
    pub fn get_temp<A: Fn(BinOp, u32, u32) -> u32, T: Fn([u32; 3]) -> (u32, u32)>(
        &self,
        arith: &A,
        xyz_to_temp: &T,
    ) -> (r: (u32, u32))
        requires
            accepts_all(arith),
            accepts_all_illuminants(xyz_to_temp),
        ensures
            exists|xyz: [u32; 3]|
                #![trigger xyz_to_temp.ensures((xyz,), r)]
                self.balanced_illuminant(arith, xyz) && xyz_to_temp.ensures((xyz,), r),
    {
        let xyz: [u32; 3] = self.illuminant(arith);
        xyz_to_temp(xyz)
    }

    /// The stage's name in a pipeline.
    pub fn name(&self) -> (r: &'static str)
        ensures
            r@ == "to_lab"@,
    {
        "to_lab"
    }

    /// The matrix that converts a buffer: the D65 reference matrix for a
    /// monochrome buffer, whose samples count as reference colour already;
    /// else the profile's normalised forward matrix.
    pub open spec fn stage_matrix(&self, monochrome: bool) -> [[u32; 4]; 3] {
        if monochrome {
            SRGB_D65_43
        } else {
            self.cam_to_xyz_normalized
        }
    }

    /// `mul` are gains that scale a buffer's samples: all one for a monochrome
    /// buffer; else the profile's gains, normalised once more.
    pub open spec fn stage_gains<A: Fn(BinOp, u32, u32) -> u32>(
        &self,
        arith: &A,
        monochrome: bool,
        mul: [u32; 4],
    ) -> bool {
        if monochrome {
            mul == UNIT_GAINS
        } else {
            normalized(arith, self.wb_coeffs, mul)
        }
    }

    /// `output` is a conversion of `input` to the perceptual space: the same
    /// rows of pixels, three samples each, pixel `p` converted from pixel `p`
    /// alone, all with one matrix and one vector of gains.
    pub open spec fn converts<A: Fn(BinOp, u32, u32) -> u32, L: Fn([u32; 3]) -> [u32; 3]>(
        &self,
        arith: &A,
        xyz_to_lab: &L,
        input: &OpBuffer,
        output: &OpBuffer,
    ) -> bool {
        &&& output.same_layout(input)
        &&& output.colors == 3
        &&& output.well_formed()
        &&& exists|mul: [u32; 4]|
            #![trigger self.stage_gains(arith, input.monochrome, mul)]
            self.stage_gains(arith, input.monochrome, mul) && forall|p: int|
                0 <= p < input.pixels() ==> camera_lab(
                    arith,
                    xyz_to_lab,
                    mul,
                    self.stage_matrix(input.monochrome),
                    quad(input.data@, p),
                    #[trigger] triple(output.data@, p),
                )
    }

    /// Converts a buffer of four-channel camera pixels to the perceptual space.
    ///
    /// `xyz_to_lab` is the transfer function from a tristimulus triple to a
    /// perceptual triple.
    pub fn run<A: Fn(BinOp, u32, u32) -> u32, L: Fn([u32; 3]) -> [u32; 3]>(
        &self,
        buf: &OpBuffer,
        arith: &A,
        xyz_to_lab: &L,
    ) -> (out: OpBuffer)
        requires
            buf.well_formed(),
            buf.colors == 4,
            accepts_all(arith),
            accepts_all_triples(xyz_to_lab),
        ensures
            self.converts(arith, xyz_to_lab, buf, &out),
            out.colors == 3,
            out.pixels() == buf.pixels(),
            out.data@.len() == 3 * buf.pixels(),
    {
        let cmatrix: [[u32; 4]; 3] = if buf.monochrome {
            SRGB_D65_43
        } else {
            self.cam_to_xyz_normalized
        };
        let mul: [u32; 4] = if buf.monochrome {
            UNIT_GAINS
        } else {
            normalize_wbs(self.wb_coeffs, arith)
        };
        let pixels: usize = buf.data.len() / 4;
        let mut data: Vec<u32> = Vec::new();
        let mut p: usize = 0;
        while p < pixels
            invariant
                p <= pixels,
                buf.data@.len() == 4 * pixels,
                4 * pixels <= usize::MAX,
                data@.len() == 3 * p,
                accepts_all(arith),
                accepts_all_triples(xyz_to_lab),
                forall|q: int|
                    0 <= q < p ==> camera_lab(
                        arith,
                        xyz_to_lab,
                        mul,
                        cmatrix,
                        quad(buf.data@, q),
                        #[trigger] triple(data@, q),
                    ),
            decreases pixels - p,
        {
            let pixin: [u32; 4] = [
                buf.data[4 * p],
                buf.data[4 * p + 1],
                buf.data[4 * p + 2],
                buf.data[4 * p + 3],
            ];
            let lab: [u32; 3] = camera_to_lab(mul, cmatrix, pixin, arith, xyz_to_lab);
            let ghost before = data@;
            data.push(lab[0]);
            data.push(lab[1]);
            data.push(lab[2]);
            proof {
                assert(pixin == quad(buf.data@, p as int));
                assert(lab == triple(data@, p as int));
                assert forall|q: int| 0 <= q < p + 1 implies camera_lab(
                    arith,
                    xyz_to_lab,
                    mul,
                    cmatrix,
                    quad(buf.data@, q),
                    #[trigger] triple(data@, q),
                ) by {
                    if q < p {
                        assert(triple(data@, q)@ =~= triple(before, q)@);
                        assert(camera_lab(
                            arith,
                            xyz_to_lab,
                            mul,
                            cmatrix,
                            quad(buf.data@, q),
                            triple(before, q),
                        ));
                    }
                }
            }
            p += 1;
        }
        let out = OpBuffer {
            width: buf.width,
            height: buf.height,
            colors: 3,
            monochrome: buf.monochrome,
            data,
        };
        assert(self.stage_gains(arith, buf.monochrome, mul));
        out
    }
}

/// The reference gain of a newly built profile is exactly one, given a unit
/// that divides a normal number by itself to one.
pub proof fn lemma_new_reference_gain_is_one<A: Fn(BinOp, u32, u32) -> u32>(
    arith: &A,
    img: ImageSource,
    profile: OpToLab,
)
    requires
        profile_of(arith, img, profile),
        self_quotient_is_one(arith),
    ensures
        profile.wb_coeffs[REFERENCE_CHANNEL as int] == ONE,
{
    match img {
        ImageSource::Raw(raw) => {
            lemma_reference_gain_is_one(arith, chosen_gains(raw), profile.wb_coeffs);
        },
        ImageSource::Other => {},
    }
}

/// The reference gain is exactly one after the white balance was set, given a
/// unit that divides a normal number by itself to one.
pub proof fn lemma_balanced_reference_gain_is_one<A: Fn(BinOp, u32, u32) -> u32>(
    arith: &A,
    xyz_to_cam: [[u32; 3]; 4],
    xyz: [u32; 3],
    tint: u32,
    gains: [u32; 4],
)
    requires
        balances(arith, xyz_to_cam, xyz, tint, gains),
        self_quotient_is_one(arith),
    ensures
        gains[REFERENCE_CHANNEL as int] == ONE,
{
    let (adjusted, raw) = choose|adjusted: [u32; 3], raw: [u32; 4]|
        #![trigger tinted(arith, xyz, tint, adjusted), normalized(arith, raw, gains)]
        tinted(arith, xyz, tint, adjusted) && reciprocal_responses(
            arith,
            xyz_to_cam,
            adjusted,
            raw,
        ) && normalized(arith, raw, gains);
    lemma_reference_gain_is_one(arith, raw, gains);
}

/// The gains that scale a buffer's samples never hold what is not a normal
/// number in place of a gain of the profile: where the profile's gain is NaN,
/// infinite, zero or subnormal, the sample is scaled by one.
pub proof fn lemma_stage_gains_guarded<A: Fn(BinOp, u32, u32) -> u32>(
    profile: &OpToLab,
    arith: &A,
    monochrome: bool,
    mul: [u32; 4],
    i: int,
)
    requires
        profile.stage_gains(arith, monochrome, mul),
        0 <= i < 4,
        monochrome || !is_normal(profile.wb_coeffs[i]),
    ensures
        mul[i] == ONE,
{
    if !monochrome {
        assert(normalized_gain(
            arith,
            profile.wb_coeffs[i],
            profile.wb_coeffs[REFERENCE_CHANNEL as int],
            mul[i],
        ));
    }
}

/// A monochrome buffer is converted with gains of one and the D65 reference
/// matrix, whatever the profile holds: a conversion under one profile is a
/// conversion under any other.
pub proof fn lemma_monochrome_ignores_profile<
    A: Fn(BinOp, u32, u32) -> u32,
    L: Fn([u32; 3]) -> [u32; 3],
>(this: &OpToLab, other: &OpToLab, arith: &A, xyz_to_lab: &L, input: &OpBuffer, output: &OpBuffer)
    requires
        input.monochrome,
        this.converts(arith, xyz_to_lab, input, output),
    ensures
        other.converts(arith, xyz_to_lab, input, output),
        forall|p: int|
            0 <= p < input.pixels() ==> camera_lab(
                arith,
                xyz_to_lab,
                UNIT_GAINS,
                SRGB_D65_43,
                quad(input.data@, p),
                #[trigger] triple(output.data@, p),
            ),
{
    let mul = choose|mul: [u32; 4]|
        #![trigger this.stage_gains(arith, input.monochrome, mul)]
        this.stage_gains(arith, input.monochrome, mul) && forall|p: int|
            0 <= p < input.pixels() ==> camera_lab(
                arith,
                xyz_to_lab,
                mul,
                this.stage_matrix(input.monochrome),
                quad(input.data@, p),
                #[trigger] triple(output.data@, p),
            );
    assert(other.stage_gains(arith, input.monochrome, mul));
}

impl OpFromLab {
    /// Builds the stage. Nothing of the image is read.
    pub fn new(_img: &ImageSource) -> (r: OpFromLab)
        ensures
            r == (OpFromLab {  }),
    {
        OpFromLab {  }
    }

    /// The stage's name in a pipeline.
    pub fn name(&self) -> (r: &'static str)
        ensures
            r@ == "from_lab"@,
    {
        "from_lab"
    }

    /// `output` is a conversion of `input` to display colour: the same rows
    /// of three-channel pixels, pixel `p` converted from pixel `p` alone with
    /// the D65 reference matrix.
    pub open spec fn converts<A: Fn(BinOp, u32, u32) -> u32, L: Fn([u32; 3]) -> [u32; 3]>(
        &self,
        arith: &A,
        lab_to_xyz: &L,
        input: &OpBuffer,
        output: &OpBuffer,
    ) -> bool {
        &&& output.same_layout(input)
        &&& output.colors == 3
        &&& output.well_formed()
        &&& forall|p: int|
            0 <= p < input.pixels() ==> lab_rgb(
                arith,
                lab_to_xyz,
                XYZ_D65_33,
                triple(input.data@, p),
                #[trigger] triple(output.data@, p),
            )
    }

    /// Converts a buffer of three-channel perceptual pixels to display colour.
    ///
    /// `lab_to_xyz` is the transfer function from a perceptual triple to a
    /// tristimulus triple.
    pub fn run<A: Fn(BinOp, u32, u32) -> u32, L: Fn([u32; 3]) -> [u32; 3]>(
        &self,
        buf: &OpBuffer,
        arith: &A,
        lab_to_xyz: &L,
    ) -> (out: OpBuffer)
        requires
            buf.well_formed(),
            buf.colors == 3,
            accepts_all(arith),
            accepts_all_triples(lab_to_xyz),
        ensures
            self.converts(arith, lab_to_xyz, buf, &out),
            out.colors == 3,
            out.pixels() == buf.pixels(),
            out.data@.len() == buf.data@.len(),
    {
        let pixels: usize = buf.data.len() / 3;
        let mut data: Vec<u32> = Vec::new();
        let mut p: usize = 0;
        while p < pixels
            invariant
                p <= pixels,
                buf.data@.len() == 3 * pixels,
                3 * pixels <= usize::MAX,
                data@.len() == 3 * p,
                accepts_all(arith),
                accepts_all_triples(lab_to_xyz),
                forall|q: int|
                    0 <= q < p ==> lab_rgb(
                        arith,
                        lab_to_xyz,
                        XYZ_D65_33,
                        triple(buf.data@, q),
                        #[trigger] triple(data@, q),
                    ),
            decreases pixels - p,
        {
            let pixin: [u32; 3] = [buf.data[3 * p], buf.data[3 * p + 1], buf.data[3 * p + 2]];
            let rgb: [u32; 3] = lab_to_rgb(XYZ_D65_33, pixin, arith, lab_to_xyz);
            let ghost before = data@;
            data.push(rgb[0]);
            data.push(rgb[1]);
            data.push(rgb[2]);
            proof {
                assert(pixin == triple(buf.data@, p as int));
                assert(rgb == triple(data@, p as int));
                assert forall|q: int| 0 <= q < p + 1 implies lab_rgb(
                    arith,
                    lab_to_xyz,
                    XYZ_D65_33,
                    triple(buf.data@, q),
                    #[trigger] triple(data@, q),
                ) by {
                    if q < p {
                        assert(triple(data@, q)@ =~= triple(before, q)@);
                        assert(lab_rgb(
                            arith,
                            lab_to_xyz,
                            XYZ_D65_33,
                            triple(buf.data@, q),
                            triple(before, q),
                        ));
                    }
                }
            }
            p += 1;
        }
        OpBuffer {
            width: buf.width,
            height: buf.height,
            colors: 3,
            monochrome: buf.monochrome,
            data,
        }
    }
}

} // verus!

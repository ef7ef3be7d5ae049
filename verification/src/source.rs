//! What the library reads of an opened image.

use vstd::prelude::*;

verus! {

/// Calibration data of a raw sensor image.
#[derive(Clone, Copy, Debug)]
pub struct RawImage {
    /// Tristimulus to camera channels: four rows of three.
    pub xyz_to_cam: [[u32; 3]; 4],
    /// White-balance gains stored with the image, one per channel.
    pub wb_coeffs: [u32; 4],
    /// Camera channels to tristimulus: three rows of four.
    pub cam_to_xyz: [[u32; 4]; 3],
    /// The row-normalised variant of `cam_to_xyz`.
    pub cam_to_xyz_normalized: [[u32; 4]; 3],
    /// Gains that turn the sensor's response to white into equal channels,
    /// derived from the calibration data alone.
    pub neutralwb: [u32; 4],
}

/// The kind of image a profile is built for.
#[derive(Clone, Copy, Debug)]
pub enum ImageSource {
    /// A raw sensor image, with its calibration data.
    Raw(RawImage),
    /// Any other image: already in the reference colour space.
    Other,
}

} // verus!

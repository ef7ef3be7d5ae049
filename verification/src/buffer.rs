//! A buffer of interleaved samples.

use vstd::prelude::*;

verus! {

/// An image as rows of pixels, each pixel `colors` samples side by side.
#[derive(Clone, Debug)]
pub struct OpBuffer {
    pub width: usize,
    pub height: usize,
    /// Samples per pixel.
    pub colors: usize,
    /// The image holds no colour information.
    pub monochrome: bool,
    /// The samples: `width * height * colors` of them.
    pub data: Vec<u32>,
}

/// The four samples of pixel `p` in a buffer of four-channel pixels.
pub open spec fn quad(samples: Seq<u32>, p: int) -> [u32; 4] {
    [samples[4 * p], samples[4 * p + 1], samples[4 * p + 2], samples[4 * p + 3]]
}

/// The three samples of pixel `p` in a buffer of three-channel pixels.
pub open spec fn triple(samples: Seq<u32>, p: int) -> [u32; 3] {
    [samples[3 * p], samples[3 * p + 1], samples[3 * p + 2]]
}

impl OpBuffer {
    /// Number of pixels.
    pub open spec fn pixels(&self) -> int {
        self.width * self.height
    }

    /// The buffer holds exactly the samples of its pixels.
    pub open spec fn well_formed(&self) -> bool {
        self.data@.len() == self.pixels() * self.colors
    }

    /// Another buffer has the same shape apart from the samples per pixel.
    pub open spec fn same_layout(&self, other: &OpBuffer) -> bool {
        &&& self.width == other.width
        &&& self.height == other.height
        &&& self.monochrome == other.monochrome
    }

    /// Tells whether the buffer holds exactly the samples of its pixels.
    pub fn is_well_formed(&self) -> (r: bool)
        ensures
            r == self.well_formed(),
    {
        let ghost w: int = self.width as int;
        let ghost h: int = self.height as int;
        let ghost c: int = self.colors as int;
        let len: usize = self.data.len();
        if self.colors == 0 {
            assert((w * h) * c == 0) by (nonlinear_arith)
                requires
                    c == 0,
            ;
            return len == 0;
        }
        match self.width.checked_mul(self.height) {
            Some(pixels) => match pixels.checked_mul(self.colors) {
                Some(samples) => samples == len,
                None => false,
            },
            None => {
                assert((w * h) * c >= w * h) by (nonlinear_arith)
                    requires
                        c >= 1,
                        w >= 0,
                        h >= 0,
                ;
                false
            },
        }
    }

    /// Wraps `data` as a buffer of the given shape, if it has the right length.
    pub fn from_samples(
        width: usize,
        height: usize,
        colors: usize,
        monochrome: bool,
        data: Vec<u32>,
    ) -> (r: Option<OpBuffer>)
        ensures
            r.is_some() <==> data@.len() == width * height * colors,
            r matches Some(b) ==> b.well_formed() && b.width == width && b.height == height
                && b.colors == colors && b.monochrome == monochrome && b.data@ == data@,
    {
        let b = OpBuffer { width, height, colors, monochrome, data };
        if b.is_well_formed() {
            Some(b)
        } else {
            None
        }
    }
}

} // verus!

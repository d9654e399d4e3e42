//! The pixel grid and its intensity model.

use vstd::prelude::*;

verus! {

/// One pixel: 8-bit red, green and blue channels.
#[derive(Clone, Copy, PartialEq, Eq, Structural, Debug)]
pub struct Rgb {
    pub r: u8,
    pub g: u8,
    pub b: u8,
}

/// The intensity of one pixel: the mean of its three channels, rounded down.
pub open spec fn pixel_intensity(p: Rgb) -> int {
    (p.r + p.g + p.b) / 3
}

/// The sum of the per-pixel intensities of a pixel sequence.
pub open spec fn intensity_sum(s: Seq<Rgb>) -> int
    decreases s.len(),
{
    if s.len() == 0 {
        0
    } else {
        intensity_sum(s.drop_last()) + pixel_intensity(s.last())
    }
}

/// A decoded raster image: `width * height` RGB pixels in row-major order.
pub struct PixelGrid {
    pub width: u32,
    pub height: u32,
    pub pixels: Vec<Rgb>,
}

impl PixelGrid {
    /// The dimensions agree with the pixel vector.
    pub open spec fn wf(self) -> bool {
        self.pixels@.len() == self.width * self.height
    }
}

/// Every per-pixel intensity lies in `[0, 255]`, so the sum over a pixel
/// sequence lies between `0` and `255` times its length; an average of the
/// sum over the length therefore lies in `[0, 255]`.
pub proof fn lemma_intensity_sum_bounds(s: Seq<Rgb>)
    ensures
        0 <= intensity_sum(s) <= 255 * s.len(),
    decreases s.len(),
{
    if s.len() > 0 {
        lemma_intensity_sum_bounds(s.drop_last());
    }
}

/// Over a uniform sequence, where every pixel equals `p`, the intensity sum
/// is the length times the intensity of `p`; the average intensity of a
/// uniform image is therefore the intensity of its pixel, whatever the
/// dimensions.
pub proof fn lemma_uniform_intensity_sum(s: Seq<Rgb>, p: Rgb)
    requires
        forall|i: int| 0 <= i < s.len() ==> s[i] == p,
    ensures
        intensity_sum(s) == s.len() * pixel_intensity(p),
    decreases s.len(),
{
    if s.len() > 0 {
        lemma_uniform_intensity_sum(s.drop_last(), p);
        assert(s.last() == p);
        assert((s.len() - 1) * pixel_intensity(p) + pixel_intensity(p) == s.len() * pixel_intensity(
            p,
        )) by (nonlinear_arith);
    }
}

} // verus!

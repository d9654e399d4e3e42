//! The intensity calculator: sums per-pixel intensities over a grid.

use vstd::prelude::*;
use crate::grid::{intensity_sum, PixelGrid};

verus! {

/// A grid with no pixels has no average intensity.
#[derive(Clone, Copy, PartialEq, Eq, Structural, Debug)]
pub struct EmptyImageError;

/// The integer part of an average intensity: the sum of the per-pixel
/// intensities and the number of pixels. The average itself is the quotient
/// `total / count`; the caller divides, so that rounding happens only there.
#[derive(Clone, Copy, PartialEq, Eq, Structural, Debug)]
pub struct IntensityTotals {
    pub total: u128,
    pub count: u64,
}

/// Sums `floor((r + g + b) / 3)` over every pixel of the grid, and counts the
/// pixels. Fails exactly on a grid with no pixels, whose average would divide
/// by zero. The total never exceeds `255 * count`, so the average lies in
/// `[0, 255]`.
pub fn average_intensity(grid: &PixelGrid) -> (r: Result<IntensityTotals, EmptyImageError>)
    requires
        grid.wf(),
    ensures
        r is Ok <==> grid.pixels@.len() > 0,
        r matches Ok(t) ==> {
            &&& t.total == intensity_sum(grid.pixels@)
            &&& t.count == grid.pixels@.len()
            &&& t.count > 0
            &&& t.total <= 255 * t.count
        },
{
    let ghost s = grid.pixels@;
    let n = grid.pixels.len();
    let mut total: u128 = 0;
    let mut i: usize = 0;
    while i < n
        invariant
            n == s.len(),
            s == grid.pixels@,
            i <= n,
            total == intensity_sum(s.subrange(0, i as int)),
            total <= 255 * i,
        decreases n - i,
    {
        let p = grid.pixels[i];
        let channel_sum: u16 = p.r as u16 + p.g as u16 + p.b as u16;
        let intensity: u16 = channel_sum / 3;
        proof {
            assert(s.subrange(0, i + 1).drop_last() =~= s.subrange(0, i as int));
            assert(s.subrange(0, i + 1).last() == s[i as int]);
            assert(255 * (i + 1) == 255 * i + 255);
        }
        total = total + intensity as u128;
        i = i + 1;
    }
    proof {
        assert(s.subrange(0, n as int) =~= s);
    }
    if n == 0 {
        Err(EmptyImageError)
    } else {
        Ok(IntensityTotals { total, count: n as u64 })
    }
}

} // verus!

//! The image decoder: turns a byte buffer into a pixel grid.
//!
//! The codec work itself is delegated to the `image` crate: it sniffs the
//! format from the byte content, decodes, and normalizes every color layout
//! to 8-bit RGB. What that produces for a given buffer is named by
//! `rgb_decoding`; the verified code builds the grid from the raw samples.

use vstd::prelude::*;
use crate::grid::{PixelGrid, Rgb};

verus! {

/// The byte buffer is not a parsable encoding of a supported image format.
#[derive(Clone, Copy, PartialEq, Eq, Structural, Debug)]
pub struct DecodeError;

/// What decoding a byte buffer yields: `None` where the buffer is not a
/// recognized, well-formed image encoding, and otherwise the width, the
/// height, and the row-major 8-bit RGB samples, three per pixel. Decoding
/// reads the buffer alone, so this is a function of the bytes.
pub uninterp spec fn rgb_decoding(bytes: Seq<u8>) -> Option<(u32, u32, Seq<u8>)>;

/// Relies on `image::load_from_memory` and `DynamicImage::to_rgb8`: the
/// format is guessed from the byte content alone, alpha is dropped and other
/// color layouts are expanded, and the resulting `RgbImage` holds exactly
/// `3 * width * height` samples in row-major order, which
/// `ImageBuffer::into_raw` hands out unchanged.
#[verifier::external_body]
fn decode_rgb_samples(bytes: &Vec<u8>) -> (r: Result<(u32, u32, Vec<u8>), DecodeError>)
    ensures
        r is Ok <==> rgb_decoding(bytes@) is Some,
        r matches Ok(d) ==> {
            &&& rgb_decoding(bytes@) == Some((d.0, d.1, d.2@))
            &&& d.2@.len() == 3 * (d.0 as nat) * (d.1 as nat)
        },
{
    match image::load_from_memory(bytes.as_slice()) {
        Ok(img) => {
            let rgb = img.to_rgb8();
            let width = rgb.width();
            let height = rgb.height();
            Ok((width, height, rgb.into_raw()))
        },
        Err(_) => Err(DecodeError),
    }
}

/// The pixel sequence that a raw sample buffer spells out: pixel `i` takes
/// its channels from samples `3 * i`, `3 * i + 1` and `3 * i + 2`.
pub open spec fn pixels_of_samples(raw: Seq<u8>, n: nat) -> Seq<Rgb> {
    Seq::new(n, |i: int| Rgb { r: raw[3 * i], g: raw[3 * i + 1], b: raw[3 * i + 2] })
}

/// Decodes a byte buffer into a pixel grid. Succeeds exactly where the codec
/// recognizes the buffer, and then returns the grid that the decoded samples
/// spell out, dimensions included.
pub fn decode(bytes: &Vec<u8>) -> (r: Result<PixelGrid, DecodeError>)
    ensures
        r is Ok <==> rgb_decoding(bytes@) is Some,
        r matches Ok(g) ==> {
            &&& rgb_decoding(bytes@) matches Some(d)
            &&& g.width == d.0
            &&& g.height == d.1
            &&& g.pixels@ == pixels_of_samples(d.2, (d.0 * d.1) as nat)
            &&& g.wf()
        },
        r is Err ==> r == Err::<PixelGrid, DecodeError>(DecodeError),
{
    let (width, height, raw) = match decode_rgb_samples(bytes) {
        Ok(d) => d,
        Err(e) => {
            return Err(e);
        },
    };
    let len = raw.len();
    let n = len / 3;
    proof {
        assert(3 * (width as int) * (height as int) == 3 * ((width as int) * (height as int)))
            by (nonlinear_arith);
        assert((3 * ((width as int) * (height as int))) / 3 == (width as int) * (height as int))
            by (nonlinear_arith);
    }
    let mut pixels: Vec<Rgb> = Vec::new();
    let mut i: usize = 0;
    while i < n
        invariant
            n * 3 == raw@.len(),
            n * 3 <= usize::MAX,
            i <= n,
            pixels@.len() == i,
            forall|j: int|
                0 <= j < i ==> pixels@[j] == (Rgb {
                    r: raw@[3 * j],
                    g: raw@[3 * j + 1],
                    b: raw@[3 * j + 2],
                }),
        decreases n - i,
    {
        let r = raw[3 * i];
        let g = raw[3 * i + 1];
        let b = raw[3 * i + 2];
        pixels.push(Rgb { r, g, b });
        i = i + 1;
    }
    proof {
        assert(pixels@ =~= pixels_of_samples(raw@, n as nat));
    }
    Ok(PixelGrid { width, height, pixels })
}

} // verus!

//! The request handler's decisions: from an extracted upload to an outcome.
//!
//! The surrounding server owns the transport: it pulls the multipart body
//! apart and sends whatever response the outcome here calls for. Every
//! decision — which uploads are malformed, when the codec or the calculator
//! failed, which status each outcome carries — is made here.

use vstd::prelude::*;
use crate::decode::{decode, pixels_of_samples, rgb_decoding};
use crate::grid::intensity_sum;
use crate::intensity::{average_intensity, IntensityTotals};

verus! {

/// Why a byte buffer yielded no average intensity.
#[derive(Clone, Copy, PartialEq, Eq, Structural, Debug)]
pub enum ImageError {
    /// The bytes are not a parsable image encoding.
    Decode,
    /// The bytes decode to an image with no pixels.
    EmptyImage,
}

/// What processing a byte buffer yields: the intensity sum and the pixel
/// count where the buffer decodes to at least one pixel, and otherwise which
/// failure it runs into. A function of the bytes alone, so processing the
/// same buffer twice yields the same result.
pub open spec fn spec_process(bytes: Seq<u8>) -> Result<(int, int), ImageError> {
    match rgb_decoding(bytes) {
        Option::None => Result::Err(ImageError::Decode),
        Option::Some(d) => {
            let n = (d.0 * d.1) as nat;
            if n == 0 {
                Result::Err(ImageError::EmptyImage)
            } else {
                Result::Ok((intensity_sum(pixels_of_samples(d.2, n)), n as int))
            }
        },
    }
}

/// Decodes the buffer and sums the per-pixel intensities, per `spec_process`:
/// unparsable bytes fail with `Decode`, a pixel-free image with `EmptyImage`,
/// and any other image yields its intensity sum and pixel count, with
/// `total <= 255 * count`.
pub fn process_image(bytes: &Vec<u8>) -> (r: Result<IntensityTotals, ImageError>)
    ensures
        match spec_process(bytes@) {
            Result::Ok(tc) => {
                &&& r matches Ok(t)
                &&& t.total == tc.0
                &&& t.count == tc.1
                &&& t.count > 0
                &&& t.total <= 255 * t.count
            },
            Result::Err(e) => r == Result::<IntensityTotals, ImageError>::Err(e),
        },
{
    let grid = match decode(bytes) {
        Ok(g) => g,
        Err(_) => {
            return Err(ImageError::Decode);
        },
    };
    match average_intensity(&grid) {
        Ok(t) => Ok(t),
        Err(_) => Err(ImageError::EmptyImage),
    }
}

/// Processing is deterministic: one and the same byte buffer yields one and
/// the same outcome — the same failure, or the same intensity sum and pixel
/// count, and with them the same average. `process_image` returns exactly
/// `spec_process` of its buffer, so two calls over equal buffers agree.
pub proof fn lemma_process_deterministic(b1: Seq<u8>, b2: Seq<u8>)
    requires
        b1 == b2,
    ensures
        spec_process(b1) == spec_process(b2),
{
}

/// The image upload that the server extracted from one request body.
pub enum UploadBody {
    /// The multipart body could not be read.
    Malformed,
    /// The body held no part named `image`.
    NoImageField,
    /// The content of the part named `image`, byte for byte.
    ImageBytes(Vec<u8>),
}

/// The outcome of one request.
pub enum RequestOutcome {
    /// The average was computed: its integer total and pixel count.
    Computed(IntensityTotals),
    /// The request's shape was wrong: no parsable body, or no `image` part.
    BadRequest,
    /// The part was there, but its bytes yield no average intensity.
    Unprocessable,
}

/// Decides one request. A malformed body or a missing `image` part is the
/// client's error; a part whose bytes fail to decode, or decode to no
/// pixels, is unprocessable content; otherwise the outcome carries the
/// computed totals, per `spec_process` of the uploaded bytes.
pub fn handle_upload(body: UploadBody) -> (r: RequestOutcome)
    ensures
        body is Malformed ==> r is BadRequest,
        body is NoImageField ==> r is BadRequest,
        body matches UploadBody::ImageBytes(b) ==> match spec_process(b@) {
            Result::Ok(tc) => {
                &&& r matches RequestOutcome::Computed(t)
                &&& t.total == tc.0
                &&& t.count == tc.1
                &&& t.count > 0
                &&& t.total <= 255 * t.count
            },
            Result::Err(_) => r is Unprocessable,
        },
{
    match body {
        UploadBody::Malformed => RequestOutcome::BadRequest,
        UploadBody::NoImageField => RequestOutcome::BadRequest,
        UploadBody::ImageBytes(bytes) => match process_image(&bytes) {
            Ok(t) => RequestOutcome::Computed(t),
            Err(_) => RequestOutcome::Unprocessable,
        },
    }
}

/// The HTTP status that each outcome is reported with: 200 for a computed
/// average, 400 for a request-shape error, 422 for unprocessable content.
pub fn status_code(outcome: &RequestOutcome) -> (s: u16)
    ensures
        outcome is Computed <==> s == 200,
        outcome is BadRequest <==> s == 400,
        outcome is Unprocessable <==> s == 422,
{
    match outcome {
        RequestOutcome::Computed(_) => 200,
        RequestOutcome::BadRequest => 400,
        RequestOutcome::Unprocessable => 422,
    }
}

} // verus!

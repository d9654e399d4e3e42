//! Average image intensity.
//!
//! A decoded image is a rectangular grid of RGB pixels. The intensity of one
//! pixel is the mean of its three channels, rounded down; the intensity of an
//! image is the mean of the per-pixel intensities over every pixel. The
//! library decodes a byte buffer into a pixel grid, sums the per-pixel
//! intensities, and classifies a request body into the outcome that a server
//! reports for it.

pub mod decode;
pub mod grid;
pub mod handler;
pub mod intensity;

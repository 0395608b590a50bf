//! Core of an image-to-text pipeline: an image is normalized to a pixel
//! ceiling, encoded as PNG, wrapped in a fixed-boundary multipart body, and
//! the service's HTML reply is scraped for the recognized text lines.
use vstd::prelude::*;

pub mod errors;
pub mod text;
pub mod multipart;
pub mod image_data;
pub mod extract;
pub mod pipeline;

verus! {

} // verus!

//! The compute stages of the pipeline on an already decoded image:
//! dimension classification, conditional resampling, output-path
//! derivation, and the failure messages of the two I/O stages. Decoding
//! and saving themselves happen at the caller's edge; the resampling call
//! is trusted to the image library.

use vstd::prelude::*;
use vstd::string::StringExecFns;
use image::GenericImageView;
use crate::classify::classify;
use crate::classify::spec_classify;
use crate::paths::derive_output_path;
use crate::paths::spec_output_path;

verus! {

#[verifier::external_type_specification]
#[verifier::external_body]
pub struct ExDynamicImage(image::DynamicImage);

/// A decoded image: the pixel data together with the dimensions that were
/// read from it.
pub struct DecodedImage {
    /// The decoded pixel data.
    pub img: image::DynamicImage,
    /// The width in pixels, as reported for `img`.
    pub width: u32,
    /// The height in pixels, as reported for `img`.
    pub height: u32,
}

/// Relies on image::GenericImageView::dimensions, as DynamicImage
/// implements it, to report the image's width and height in pixels.
#[verifier::external_body]
fn dimensions_of(img: &image::DynamicImage) -> (u32, u32) {
    img.dimensions()
}

/// Relies on image::DynamicImage::resize_exact: produces a new image of
/// exactly the requested dimensions with the three-lobed Lanczos filter,
/// resizing each axis independently (aspect ratio is not preserved).
#[verifier::external_body]
fn resize_lanczos3(img: &image::DynamicImage, width: u32, height: u32) -> image::DynamicImage {
    img.resize_exact(width, height, image::imageops::FilterType::Lanczos3)
}

impl DecodedImage {
    /// Pairs freshly decoded pixel data with the dimensions read from it.
    pub fn from_dynamic(img: image::DynamicImage) -> (d: DecodedImage)
        ensures
            d.img == img,
    {
        let dims: (u32, u32) = dimensions_of(&img);
        DecodedImage { img, width: dims.0, height: dims.1 }
    }
}

/// Conditionally resamples: when the classified target equals the input
/// dimensions the very input is passed through untouched, pixel data
/// included; otherwise a new image of exactly the target dimensions is
/// produced.
pub fn transform(input: DecodedImage) -> (out: DecodedImage)
    ensures
        (out.width, out.height) == spec_classify(input.width, input.height),
        spec_classify(input.width, input.height) == (input.width, input.height) ==> out == input,
{
    let target: (u32, u32) = classify(input.width, input.height);
    if target.0 == input.width && target.1 == input.height {
        input
    } else {
        let resized = resize_lanczos3(&input.img, target.0, target.1);
        DecodedImage { img: resized, width: target.0, height: target.1 }
    }
}

/// Runs the compute stages on a decoded image: classification, conditional
/// resampling, and derivation of the output path from the input path.
pub fn process_decoded(input: DecodedImage, path: &str) -> (r: (DecodedImage, String))
    ensures
        (r.0.width, r.0.height) == spec_classify(input.width, input.height),
        spec_classify(input.width, input.height) == (input.width, input.height) ==> r.0 == input,
        r.1@ == spec_output_path(path@),
{
    let out = transform(input);
    let out_path = derive_output_path(path);
    (out, out_path)
}

/// The failure reason reported when the input file cannot be decoded.
pub fn decode_failure_message(reason: &str) -> (r: String)
    ensures
        r@ == "Image cannot be opened: "@ + reason@,
{
    String::from_str("Image cannot be opened: ").concat(reason)
}

/// The failure reason reported when the result cannot be saved.
pub fn save_failure_message(reason: &str) -> (r: String)
    ensures
        r@ == "No se pudo guardar la imagen: "@ + reason@,
{
    String::from_str("No se pudo guardar la imagen: ").concat(reason)
}

} // verus!

//! The application icon: decoding the embedded PNG image into RGBA pixels.
use vstd::prelude::*;

verus! {

/// What `image::load_from_memory_with_format` with the PNG format, followed by `to_rgba8`,
/// gives for `data`: the width, the height and the RGBA bytes of the decoded image, or
/// nothing when the data is not a PNG image that decodes.
pub uninterp spec fn decoded_png_rgba(data: Seq<u8>) -> Option<(u32, u32, Seq<u8>)>;

/// Calls `image::load_from_memory_with_format` with the built-in PNG format (so no
/// registered detection or decoding hook takes part) and converts the image with `to_rgba8`.
/// The contract claims only that the outcome is a function of the bytes, named
/// `decoded_png_rgba`; the PNG decoding itself is not stated.
#[verifier::external_body]
fn decode_rgba(data: &[u8]) -> (r: Option<(u32, u32, Vec<u8>)>)
    ensures
        match r {
            Some((w, h, px)) => decoded_png_rgba(data@) == Some((w, h, px@)),
            None => decoded_png_rgba(data@) is None,
        },
{
    match image::load_from_memory_with_format(data, image::ImageFormat::Png) {
        Ok(decoded) => {
            let pixels = decoded.to_rgba8();
            Some((pixels.width(), pixels.height(), pixels.into_raw()))
        },
        Err(_) => None,
    }
}

/// An icon as RGBA pixels, row by row.
pub struct IconPixels {
    pub width: u32,
    pub height: u32,
    pub rgba: Vec<u8>,
}

/// The icon for the PNG bytes `data`: its pixels, or an empty icon when the bytes do not
/// decode.
pub fn load_icon(data: &[u8]) -> (r: IconPixels)
    ensures
        match decoded_png_rgba(data@) {
            Some((w, h, px)) => r.width == w && r.height == h && r.rgba@ == px,
            None => r.width == 0 && r.height == 0 && r.rgba@.len() == 0,
        },
{
    match decode_rgba(data) {
        Some((width, height, rgba)) => IconPixels { width, height, rgba },
        None => IconPixels { width: 0, height: 0, rgba: Vec::new() },
    }
}

} // verus!

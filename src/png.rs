//! PNG encoding of interleaved RGB data, done by the `image` crate.

use vstd::prelude::*;
use image::ImageEncoder;

verus! {

#[verifier::external_type_specification]
#[verifier::external_body]
pub struct ExImageError(image::ImageError);

/// The PNG stream that the `image` crate writes for `width` by `height`
/// pixels of 8-bit RGB data.
pub uninterp spec fn png_rgb8(data: Seq<u8>, width: u32, height: u32) -> Seq<u8>;

/// Relies on `image::codecs::png::PngEncoder::write_image` with the default
/// compression and filter: the stream written for 8-bit RGB data depends on
/// the data and the size alone. A zero width or height is refused by the
/// `png` crate's header check; otherwise, for data of three bytes per pixel
/// written into a `Vec`, nothing fails. It panics unless the data holds
/// three bytes per pixel.
#[verifier::external_body]
pub(crate) fn encode_png_rgb8(data: &[u8], width: u32, height: u32) -> (r: Result<Vec<u8>, image::ImageError>)
    requires
        data@.len() == width as int * height as int * 3,
    ensures
        r matches Ok(bytes) ==> bytes@ == png_rgb8(data@, width, height),
        width == 0 || height == 0 ==> r is Err,
        width > 0 && height > 0 ==> r is Ok,
{
    let mut out: Vec<u8> = Vec::new();
    let encoder = image::codecs::png::PngEncoder::new(&mut out);
    match encoder.write_image(data, width, height, image::ColorType::Rgb8) {
        Ok(()) => Ok(out),
        Err(e) => Err(e),
    }
}

} // verus!

//! PNG encoding of the finished 8-bit RGB pixel buffer.

use vstd::prelude::*;

verus! {

#[verifier::external_type_specification]
#[verifier::external_body]
pub struct ExEncodingError(png::EncodingError);

/// The bytes of the PNG file that the png crate writes for an 8-bit RGB
/// image of the given size and pixel data.
pub uninterp spec fn png_rgb8_of(width: u32, height: u32, data: Seq<u8>) -> Seq<u8>;

/// Relies on png::Encoder (new, set_color, set_depth, write_header) and
/// png::Writer::write_image_data: for an 8-bit RGB image written into memory,
/// the header fails on a zero width or height, the data fails unless it
/// holds exactly three bytes per pixel, and nothing else fails.
#[verifier::external_body]
fn png_rgb8(width: u32, height: u32, data: &[u8]) -> (r: Result<Vec<u8>, png::EncodingError>)
    requires
        width * height * 3 <= usize::MAX,
    ensures
        r is Ok <==> (width > 0 && height > 0 && data@.len() == width * height * 3),
        r matches Ok(bytes) ==> bytes@ == png_rgb8_of(width, height, data@),
{
    let mut out = Vec::new();
    let mut encoder = png::Encoder::new(&mut out, width, height);
    encoder.set_color(png::ColorType::RGB);
    encoder.set_depth(png::BitDepth::Eight);
    let mut writer = encoder.write_header()?;
    writer.write_image_data(data)?;
    drop(writer);
    Ok(out)
}

/// Why an image could not be encoded.
pub enum ImageError {
    /// The width or the height exceeds what a PNG header holds, or the
    /// image has more bytes than memory can address.
    DimensionTooLarge,
    /// The encoder refused the image: a zero width or height, or a buffer
    /// that does not hold three bytes per pixel.
    Encoding(png::EncodingError),
}

/// The sizes that a PNG header and this machine can hold.
pub open spec fn dimensions_fit(width: int, height: int) -> bool {
    &&& width <= u32::MAX
    &&& height <= u32::MAX
    &&& width * height * 3 <= usize::MAX
}

/// Encodes a `width` by `height` 8-bit RGB buffer, top row first, as the
/// bytes of a PNG file.
pub fn encode_png(width: usize, height: usize, rgb: &[u8]) -> (r: Result<Vec<u8>, ImageError>)
    ensures
        r matches Err(ImageError::DimensionTooLarge) <==> !dimensions_fit(width as int, height as int),
        r matches Err(ImageError::Encoding(_)) <==> dimensions_fit(width as int, height as int)
            && !(width > 0 && height > 0 && rgb@.len() == width * height * 3),
        r matches Ok(bytes) ==> bytes@ == png_rgb8_of(width as u32, height as u32, rgb@),
{
    if width > u32::MAX as usize || height > u32::MAX as usize {
        return Err(ImageError::DimensionTooLarge);
    }
    match width.checked_mul(height) {
        Some(pixels) => {
            if pixels > usize::MAX / 3 {
                return Err(ImageError::DimensionTooLarge);
            }
        },
        None => {
            assert(width * height * 3 > usize::MAX) by (nonlinear_arith)
                requires width * height > usize::MAX;
            return Err(ImageError::DimensionTooLarge);
        },
    }
    match png_rgb8(width as u32, height as u32, rgb) {
        Ok(bytes) => Ok(bytes),
        Err(e) => Err(ImageError::Encoding(e)),
    }
}

} // verus!

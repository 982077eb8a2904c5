//! The boundary to the codec provider, the `image` crate.
//!
//! Everything in this module is believed, not proved: each item says what it
//! takes from the provider and what it claims of it.

use crate::formats::{CodecFormat, ImageFormat};
use crate::signature::signature_name;
use vstd::prelude::*;

verus! {

/// The provider's error type. Nothing is known of a value but what its
/// `Display` impl prints.
#[verifier::external_type_specification]
#[verifier::external_body]
pub struct ExImageError(image::ImageError);

/// The provider's decoded image: the canonical pixel buffer. It is handed
/// from the decoder to the encoder and never looked into.
#[verifier::external_type_specification]
#[verifier::external_body]
pub struct ExDynamicImage(image::DynamicImage);

/// `image::load_from_memory`: sniffs the format of `buffer` and decodes it.
/// Nothing is claimed of the outcome: which inputs decode is the provider's
/// business, and hooks registered with it may widen the set.
pub assume_specification[ image::load_from_memory ](buffer: &[u8]) -> image::ImageResult<
    image::DynamicImage,
>;

/// `image::guess_format`: compares the start of `input` with the provider's
/// table of magic bytes, first match first. The claim is that the format it
/// reports is the one `signature_name` names, and that it reports none exactly
/// when `signature_name` finds none. A format without a variant of its own
/// comes back under the name that the provider's `Debug` impl prints.
#[verifier::external_body]
pub(crate) fn guess_format(input: &[u8]) -> (guess: Option<CodecFormat>)
    ensures
        match signature_name(input@) {
            Some(name) => guess matches Some(format) && format.is_canonical() && format.name()
                == name,
            None => guess is None,
        },
{
    match image::guess_format(input) {
        Ok(image::ImageFormat::Png) => Some(CodecFormat::Png),
        Ok(image::ImageFormat::Jpeg) => Some(CodecFormat::Jpeg),
        Ok(image::ImageFormat::WebP) => Some(CodecFormat::WebP),
        Ok(image::ImageFormat::Gif) => Some(CodecFormat::Gif),
        Ok(image::ImageFormat::Bmp) => Some(CodecFormat::Bmp),
        Ok(other) => Some(CodecFormat::Other(format!("{other:?}"))),
        Err(_) => None,
    }
}

/// `image::DynamicImage::write_to`, writing into a fresh buffer through a
/// `std::io::Cursor`. `target` is handed over as the provider's format of the
/// same name. Nothing is claimed of the outcome: the provider may turn an
/// image down, and what it writes is its own business.
#[verifier::external_body]
pub(crate) fn encode(image: &image::DynamicImage, target: ImageFormat) -> (encoded: Result<
    Vec<u8>,
    image::ImageError,
>) {
    let format = match target {
        ImageFormat::Png => image::ImageFormat::Png,
        ImageFormat::Jpeg => image::ImageFormat::Jpeg,
        ImageFormat::WebP => image::ImageFormat::WebP,
        ImageFormat::Gif => image::ImageFormat::Gif,
        ImageFormat::Bmp => image::ImageFormat::Bmp,
    };
    let mut output = Vec::new();
    image.write_to(&mut std::io::Cursor::new(&mut output), format)?;
    Ok(output)
}

/// `image::ImageReader::with_guessed_format` and then `into_dimensions`, on a
/// reader over `input`: the provider guesses the format from the first bytes
/// and reads width and height from the header, without decoding pixels. An
/// I/O error of the first step comes back as the provider's own I/O error.
/// Nothing is claimed of the outcome.
#[verifier::external_body]
pub(crate) fn read_dimensions(input: &[u8]) -> (size: Result<(u32, u32), image::ImageError>) {
    image::ImageReader::new(std::io::Cursor::new(input))
        .with_guessed_format()
        .map_err(image::ImageError::IoError)?
        .into_dimensions()
}

} // verus!

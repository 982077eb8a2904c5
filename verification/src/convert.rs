//! The conversion pipeline: validate the target, decode, release the input,
//! encode. Also the header-only reading of dimensions.

use crate::codec::{encode, read_dimensions};
use crate::formats::{FormatError, ImageFormat};
use vstd::prelude::*;
use vstd::string::*;

verus! {

/// Width and height of an image, in pixels.
#[derive(Debug, Clone, Copy, PartialEq, Eq, Structural)]
pub struct Dimensions {
    pub width: u32,
    pub height: u32,
}

/// Why a conversion, or a reading of dimensions, failed.
#[derive(Debug)]
pub enum ConvertError {
    /// The provider could not decode the input; its error says why.
    Decode(image::ImageError),
    /// The provider could not encode the decoded image; its error says why.
    Encode(image::ImageError),
    /// The target format cannot be written; the text says which.
    UnsupportedTarget(String),
}

/// `text` is what the provider's error prints of itself.
pub open spec fn is_diagnostic_of(text: Seq<char>, error: image::ImageError) -> bool {
    exists|printed: String| #[trigger]
        to_string_from_display_ensures::<image::ImageError>(&error, printed) && printed@ == text
}

impl ConvertError {
    /// `text` is the message of the error: for a failure of the provider its
    /// diagnostic behind a prefix that names the stage, for an unsupported
    /// target the text it holds.
    pub open spec fn is_message(self, text: Seq<char>) -> bool {
        match self {
            ConvertError::Decode(error) => exists|diagnostic: Seq<char>|
                #[trigger] is_diagnostic_of(diagnostic, error) && text
                    == "Failed to decode image: "@ + diagnostic,
            ConvertError::Encode(error) => exists|diagnostic: Seq<char>|
                #[trigger] is_diagnostic_of(diagnostic, error) && text
                    == "Failed to encode image: "@ + diagnostic,
            ConvertError::UnsupportedTarget(message) => text == message@,
        }
    }

    /// `text` is the message of some decode failure.
    pub open spec fn is_decode_failure_message(text: Seq<char>) -> bool {
        exists|error: ConvertError| error is Decode && #[trigger] error.is_message(text)
    }

    /// `text` is the message of some decode or encode failure.
    pub open spec fn is_codec_failure_message(text: Seq<char>) -> bool {
        exists|error: ConvertError|
            (error is Decode || error is Encode) && #[trigger] error.is_message(text)
    }

    /// The message of the error, as text.
    pub fn to_string(&self) -> (text: String)
        ensures
            self.is_message(text@),
    {
        match self {
            ConvertError::Decode(error) => {
                let diagnostic = error.to_string();
                assert(is_diagnostic_of(diagnostic@, *error));
                let mut text = "Failed to decode image: ".to_owned();
                text.append(diagnostic.as_str());
                text
            },
            ConvertError::Encode(error) => {
                let diagnostic = error.to_string();
                assert(is_diagnostic_of(diagnostic@, *error));
                let mut text = "Failed to encode image: ".to_owned();
                text.append(diagnostic.as_str());
                text
            },
            ConvertError::UnsupportedTarget(message) => message.clone(),
        }
    }
}

/// What the pipeline makes of the decoder's answer: the image, or a decode
/// failure that carries the provider's error.
pub fn after_decode(decoded: Result<image::DynamicImage, image::ImageError>) -> (outcome: Result<
    image::DynamicImage,
    ConvertError,
>)
    ensures
        match decoded {
            Ok(image) => outcome == Ok::<image::DynamicImage, ConvertError>(image),
            Err(error) => outcome == Err::<image::DynamicImage, ConvertError>(
                ConvertError::Decode(error),
            ),
        },
{
    match decoded {
        Ok(image) => Ok(image),
        Err(error) => Err(ConvertError::Decode(error)),
    }
}

/// What the pipeline makes of the encoder's answer: the bytes, or an encode
/// failure that carries the provider's error.
pub fn after_encode(encoded: Result<Vec<u8>, image::ImageError>) -> (outcome: Result<
    Vec<u8>,
    ConvertError,
>)
    ensures
        match encoded {
            Ok(bytes) => outcome == Ok::<Vec<u8>, ConvertError>(bytes),
            Err(error) => outcome == Err::<Vec<u8>, ConvertError>(ConvertError::Encode(error)),
        },
{
    match encoded {
        Ok(bytes) => Ok(bytes),
        Err(error) => Err(ConvertError::Encode(error)),
    }
}

/// What a reading of dimensions makes of the header reader's answer: width
/// and height, or a decode failure that carries the provider's error.
pub fn after_probe(probed: Result<(u32, u32), image::ImageError>) -> (outcome: Result<
    Dimensions,
    ConvertError,
>)
    ensures
        match probed {
            Ok(size) => outcome == Ok::<Dimensions, ConvertError>(
                Dimensions { width: size.0, height: size.1 },
            ),
            Err(error) => outcome == Err::<Dimensions, ConvertError>(ConvertError::Decode(error)),
        },
{
    match probed {
        Ok((width, height)) => Ok(Dimensions { width, height }),
        Err(error) => Err(ConvertError::Decode(error)),
    }
}

/// Decodes `input`. The buffer is taken by value and is gone when the call
/// returns, so that the encoder never runs while the input is still held.
fn decode(input: Vec<u8>) -> Result<image::DynamicImage, image::ImageError> {
    image::load_from_memory(input.as_slice())
}

/// Decodes `input` and encodes the image again as `target`.
///
/// The target is checked before anything is decoded: a format that cannot be
/// written is turned down whatever the input holds. For a target that can be
/// written, the codec provider decides: the outcome is the encoded bytes, a
/// decode failure or an encode failure.
pub fn convert(input: Vec<u8>, target: ImageFormat) -> (outcome: Result<Vec<u8>, ConvertError>)
    ensures
        !target.is_encodable() ==> (outcome matches Err(ConvertError::UnsupportedTarget(message))
            && message@ == FormatError::EncodeUnsupported(target).message()),
        target.is_encodable() ==> !(outcome matches Err(ConvertError::UnsupportedTarget(_))),
{
    match target.to_image_format() {
        Ok(_) => {},
        Err(error) => {
            return Err(ConvertError::UnsupportedTarget(error.to_string()));
        },
    }
    let image = match after_decode(decode(input)) {
        Ok(image) => image,
        Err(error) => {
            return Err(error);
        },
    };
    after_encode(encode(&image, target))
}

/// Reads width and height from the header of an encoded image, without
/// decoding its pixels. Every failure is a decode failure.
pub fn dimensions(input: &[u8]) -> (outcome: Result<Dimensions, ConvertError>)
    ensures
        outcome matches Err(error) ==> error is Decode,
{
    after_probe(read_dimensions(input))
}

} // verus!

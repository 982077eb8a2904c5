//! Conversion of raster images between container formats, with format
//! detection and header-only reading of dimensions.
//!
//! The three operations of this module take and return plain values, for a
//! caller that speaks in bytes and text: a detected format comes back as its
//! canonical name, a failure as its message.

use crate::convert::{ConvertError, Dimensions};
use crate::formats::{FormatError, ImageFormat};
use vstd::prelude::*;
use vstd::slice::slice_to_vec;
use vstd::string::*;

pub mod codec;
pub mod convert;
pub mod formats;
pub mod signature;
pub mod text;

verus! {

/// `outcome` reports `detected`: the canonical name of the format, or the
/// message of the error behind a prefix.
pub open spec fn is_detection_report(
    outcome: Result<String, String>,
    detected: Result<ImageFormat, FormatError>,
) -> bool {
    match detected {
        Ok(format) => outcome matches Ok(name) && name@ == format.name(),
        Err(error) => outcome matches Err(message) && message@
            == "Failed to detect image format: "@ + error.message(),
    }
}

/// Detects the format of an encoded image and returns its canonical name:
/// `png`, `jpeg`, `webp`, `gif` or `bmp`.
pub fn detect_format(input: &[u8]) -> (outcome: Result<String, String>)
    ensures
        exists|detected: Result<ImageFormat, FormatError>|
            #[trigger] ImageFormat::is_detection_of(detected, input@) && is_detection_report(
                outcome,
                detected,
            ),
{
    let detected = ImageFormat::detect_from_bytes(input);
    match &detected {
        Ok(format) => Ok(format.to_string()),
        Err(error) => {
            let mut message = "Failed to detect image format: ".to_owned();
            message.append(error.to_string().as_str());
            Err(message)
        },
    }
}

/// Converts an encoded image to the format that `target_format` names.
///
/// A text that names no format, and a format that cannot be written, are
/// turned down with their message before anything is decoded. Otherwise the
/// codec provider decides, and a failure is reported with the message of a
/// decode or an encode failure.
pub fn convert_image(input: &[u8], target_format: &str) -> (outcome: Result<Vec<u8>, String>)
    ensures
        match ImageFormat::of_name(target_format@) {
            None => outcome matches Err(message) && message@ == "Invalid target format: "@
                + FormatError::unknown_name_message(target_format@),
            Some(target) => if target.is_encodable() {
                outcome matches Err(message) ==> ConvertError::is_codec_failure_message(message@)
            } else {
                outcome matches Err(message) && message@ == FormatError::EncodeUnsupported(
                    target,
                ).message()
            },
        },
{
    let target = match ImageFormat::from_name(target_format) {
        Ok(target) => target,
        Err(error) => {
            let mut message = "Invalid target format: ".to_owned();
            message.append(error.to_string().as_str());
            return Err(message);
        },
    };
    match convert::convert(slice_to_vec(input), target) {
        Ok(bytes) => Ok(bytes),
        Err(error) => {
            let message = error.to_string();
            assert(error.is_message(message@));
            Err(message)
        },
    }
}

/// Reads width and height of an encoded image from its header. A failure is
/// reported with the message of a decode failure.
pub fn get_dimensions(input: &[u8]) -> (outcome: Result<Dimensions, String>)
    ensures
        outcome matches Err(message) ==> ConvertError::is_decode_failure_message(message@),
{
    match convert::dimensions(input) {
        Ok(size) => Ok(size),
        Err(error) => {
            let message = error.to_string();
            assert(error.is_message(message@));
            Err(message)
        },
    }
}

} // verus!

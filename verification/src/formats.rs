//! The supported container formats, their names, and format detection.

use crate::codec::guess_format;
use crate::signature::signature_name;
use crate::text::{
    ascii_lowercase, lemma_same_ignoring_case_folds_alike, same_ignoring_ascii_case,
};
use vstd::prelude::*;
use vstd::string::*;

verus! {

/// The container formats this library reads. All but WebP it also writes.
#[derive(Debug, Clone, Copy, PartialEq, Eq, Structural)]
pub enum ImageFormat {
    Png,
    Jpeg,
    WebP,
    Gif,
    Bmp,
}

/// A container format as the codec provider identifies it. The five formats
/// this library handles have a variant each; any other format is carried
/// under the provider's name for it.
#[derive(Debug, PartialEq, Eq)]
pub enum CodecFormat {
    Png,
    Jpeg,
    WebP,
    Gif,
    Bmp,
    Other(String),
}

impl CodecFormat {
    /// The provider's name for the format.
    pub open spec fn name(self) -> Seq<char> {
        match self {
            CodecFormat::Png => "Png"@,
            CodecFormat::Jpeg => "Jpeg"@,
            CodecFormat::WebP => "WebP"@,
            CodecFormat::Gif => "Gif"@,
            CodecFormat::Bmp => "Bmp"@,
            CodecFormat::Other(name) => name@,
        }
    }

    /// A format that has a variant of its own is not carried as `Other`.
    pub open spec fn is_canonical(self) -> bool {
        self matches CodecFormat::Other(name) ==> ImageFormat::of_codec_name(name@) is None
    }

    /// The provider's name for the format, as text.
    pub fn as_str(&self) -> (name: &str)
        ensures
            name@ == self.name(),
    {
        match self {
            CodecFormat::Png => "Png",
            CodecFormat::Jpeg => "Jpeg",
            CodecFormat::WebP => "WebP",
            CodecFormat::Gif => "Gif",
            CodecFormat::Bmp => "Bmp",
            CodecFormat::Other(name) => name.as_str(),
        }
    }
}

impl ImageFormat {
    /// The canonical lower-case name of the format.
    pub open spec fn name(self) -> Seq<char> {
        match self {
            ImageFormat::Png => "png"@,
            ImageFormat::Jpeg => "jpeg"@,
            ImageFormat::WebP => "webp"@,
            ImageFormat::Gif => "gif"@,
            ImageFormat::Bmp => "bmp"@,
        }
    }

    /// The format that a lower-case name stands for: the canonical names, and
    /// `jpg` for JPEG.
    pub open spec fn of_lowercase_name(name: Seq<char>) -> Option<ImageFormat> {
        if name == "png"@ {
            Some(ImageFormat::Png)
        } else if name == "jpeg"@ || name == "jpg"@ {
            Some(ImageFormat::Jpeg)
        } else if name == "webp"@ {
            Some(ImageFormat::WebP)
        } else if name == "gif"@ {
            Some(ImageFormat::Gif)
        } else if name == "bmp"@ {
            Some(ImageFormat::Bmp)
        } else {
            None
        }
    }

    /// The format that `name` stands for, whatever the case of its letters.
    pub open spec fn of_name(name: Seq<char>) -> Option<ImageFormat> {
        Self::of_lowercase_name(ascii_lowercase(name))
    }

    /// The supported format that the provider calls `name`.
    pub open spec fn of_codec_name(name: Seq<char>) -> Option<ImageFormat> {
        if name == "Png"@ {
            Some(ImageFormat::Png)
        } else if name == "Jpeg"@ {
            Some(ImageFormat::Jpeg)
        } else if name == "WebP"@ {
            Some(ImageFormat::WebP)
        } else if name == "Gif"@ {
            Some(ImageFormat::Gif)
        } else if name == "Bmp"@ {
            Some(ImageFormat::Bmp)
        } else {
            None
        }
    }

    /// The supported format that `format` is, if it is one.
    pub open spec fn of_codec_format(format: CodecFormat) -> Option<ImageFormat> {
        match format {
            CodecFormat::Png => Some(ImageFormat::Png),
            CodecFormat::Jpeg => Some(ImageFormat::Jpeg),
            CodecFormat::WebP => Some(ImageFormat::WebP),
            CodecFormat::Gif => Some(ImageFormat::Gif),
            CodecFormat::Bmp => Some(ImageFormat::Bmp),
            CodecFormat::Other(_) => None,
        }
    }

    /// The format can be written, not only read.
    pub open spec fn is_encodable(self) -> bool {
        !(self is WebP)
    }

    /// The provider's identifier of the format.
    pub open spec fn codec_format(self) -> CodecFormat {
        match self {
            ImageFormat::Png => CodecFormat::Png,
            ImageFormat::Jpeg => CodecFormat::Jpeg,
            ImageFormat::WebP => CodecFormat::WebP,
            ImageFormat::Gif => CodecFormat::Gif,
            ImageFormat::Bmp => CodecFormat::Bmp,
        }
    }

    /// `outcome` is what detection owes for `bytes`: an error for an empty
    /// input, else the supported format whose signature the bytes begin
    /// with, else the unsupported format that the signature belongs to, else
    /// `Unrecognized`.
    pub open spec fn is_detection_of(
        outcome: Result<ImageFormat, FormatError>,
        bytes: Seq<u8>,
    ) -> bool {
        if bytes.len() == 0 {
            outcome == Err::<ImageFormat, FormatError>(FormatError::EmptyInput)
        } else {
            match signature_name(bytes) {
                None => outcome == Err::<ImageFormat, FormatError>(FormatError::Unrecognized),
                Some(name) => match Self::of_codec_name(name) {
                    Some(format) => outcome == Ok::<ImageFormat, FormatError>(format),
                    None => outcome matches Err(FormatError::Unsupported(CodecFormat::Other(other)))
                        && other@ == name,
                },
            }
        }
    }

    /// `outcome` is what parsing owes for `name`: the format it stands for,
    /// or `UnknownName` with the text as it was given.
    pub open spec fn is_parse_of(outcome: Result<ImageFormat, FormatError>, name: Seq<char>) -> bool {
        match Self::of_name(name) {
            Some(format) => outcome == Ok::<ImageFormat, FormatError>(format),
            None => outcome matches Err(FormatError::UnknownName(given)) && given@ == name,
        }
    }

    /// Detects the format of an encoded image from the signature at its start.
    pub fn detect_from_bytes(input: &[u8]) -> (outcome: Result<Self, FormatError>)
        ensures
            Self::is_detection_of(outcome, input@),
    {
        if input.len() == 0 {
            return Err(FormatError::EmptyInput);
        }
        let guessed = match guess_format(input) {
            Some(format) => format,
            None => {
                return Err(FormatError::Unrecognized);
            },
        };
        proof {
            lemma_codec_name_decides(guessed);
        }
        match Self::from_image_format(&guessed) {
            Some(format) => Ok(format),
            None => Err(FormatError::Unsupported(guessed)),
        }
    }

    /// Parses a format name, ignoring the case of ASCII letters: `png`,
    /// `jpeg` or `jpg`, `webp`, `gif`, `bmp`.
    pub fn from_name(name: &str) -> (outcome: Result<Self, FormatError>)
        ensures
            Self::is_parse_of(outcome, name@),
    {
        let lowered = name.to_ascii_lowercase();
        let key = lowered.as_str();
        if key.eq("png") {
            Ok(Self::Png)
        } else if key.eq("jpeg") || key.eq("jpg") {
            Ok(Self::Jpeg)
        } else if key.eq("webp") {
            Ok(Self::WebP)
        } else if key.eq("gif") {
            Ok(Self::Gif)
        } else if key.eq("bmp") {
            Ok(Self::Bmp)
        } else {
            Err(FormatError::UnknownName(name.to_owned()))
        }
    }

    /// Maps the provider's identifier to the supported format it stands for.
    fn from_image_format(fmt: &CodecFormat) -> (supported: Option<Self>)
        ensures
            supported == Self::of_codec_format(*fmt),
    {
        match fmt {
            CodecFormat::Png => Some(Self::Png),
            CodecFormat::Jpeg => Some(Self::Jpeg),
            CodecFormat::WebP => Some(Self::WebP),
            CodecFormat::Gif => Some(Self::Gif),
            CodecFormat::Bmp => Some(Self::Bmp),
            _ => None,
        }
    }

    /// The provider's identifier to encode with, or `EncodeUnsupported` for a
    /// format that is only read.
    pub fn to_image_format(self) -> (target: Result<CodecFormat, FormatError>)
        ensures
            self.is_encodable() ==> target == Ok::<CodecFormat, FormatError>(self.codec_format()),
            !self.is_encodable() ==> target == Err::<CodecFormat, FormatError>(
                FormatError::EncodeUnsupported(self),
            ),
    {
        match self {
            Self::Png => Ok(CodecFormat::Png),
            Self::Jpeg => Ok(CodecFormat::Jpeg),
            Self::Gif => Ok(CodecFormat::Gif),
            Self::Bmp => Ok(CodecFormat::Bmp),
            Self::WebP => Err(FormatError::EncodeUnsupported(self)),
        }
    }

    /// The canonical lower-case name: `png`, `jpeg`, `webp`, `gif` or `bmp`.
    pub fn as_str(&self) -> (name: &'static str)
        ensures
            name@ == self.name(),
    {
        match self {
            Self::Png => "png",
            Self::Jpeg => "jpeg",
            Self::WebP => "webp",
            Self::Gif => "gif",
            Self::Bmp => "bmp",
        }
    }

    /// The canonical lower-case name, owned.
    pub fn to_string(&self) -> (name: String)
        ensures
            name@ == self.name(),
    {
        self.as_str().to_owned()
    }
}

/// A format is found again by the provider's name for it: the five names
/// of the supported formats are five different texts, and no other format
/// goes by one of them.
pub proof fn lemma_codec_name_decides(format: CodecFormat)
    requires
        format.is_canonical(),
    ensures
        ImageFormat::of_codec_name(format.name()) == ImageFormat::of_codec_format(format),
{
    reveal_strlit("Png");
    reveal_strlit("Jpeg");
    reveal_strlit("WebP");
    reveal_strlit("Gif");
    reveal_strlit("Bmp");
    assert("Png"@[0] == 'P' && "Gif"@[0] == 'G' && "Bmp"@[0] == 'B');
    assert("Jpeg"@[0] == 'J' && "WebP"@[0] == 'W');
}

/// Why a format could not be detected, parsed or used.
#[derive(Debug)]
pub enum FormatError {
    /// The input held no bytes.
    EmptyInput,
    /// The bytes begin with no signature the provider knows.
    Unrecognized,
    /// The bytes begin with the signature of a format that is not supported.
    Unsupported(CodecFormat),
    /// The text names no supported format.
    UnknownName(String),
    /// The format can be read but not written.
    EncodeUnsupported(ImageFormat),
}

impl FormatError {
    /// The message for a text that names no supported format.
    pub open spec fn unknown_name_message(name: Seq<char>) -> Seq<char> {
        "Unknown format name: \""@ + name + "\""@
    }

    /// The message of the error.
    pub open spec fn message(self) -> Seq<char> {
        match self {
            FormatError::EmptyInput => "Input is empty \u{2014} no image data provided"@,
            FormatError::Unrecognized => "Unrecognized image format"@,
            FormatError::Unsupported(format) => "Unsupported image format: "@ + format.name(),
            FormatError::UnknownName(name) => Self::unknown_name_message(name@),
            FormatError::EncodeUnsupported(format) => "Format \""@ + format.name()
                + "\" is not supported as an output format"@,
        }
    }

    /// The message of the error, as text.
    pub fn to_string(&self) -> (text: String)
        ensures
            text@ == self.message(),
    {
        match self {
            FormatError::EmptyInput => "Input is empty \u{2014} no image data provided".to_owned(),
            FormatError::Unrecognized => "Unrecognized image format".to_owned(),
            FormatError::Unsupported(format) => {
                let mut text = "Unsupported image format: ".to_owned();
                text.append(format.as_str());
                text
            },
            FormatError::UnknownName(name) => {
                let mut text = "Unknown format name: \"".to_owned();
                text.append(name.as_str());
                text.append("\"");
                text
            },
            FormatError::EncodeUnsupported(format) => {
                let mut text = "Format \"".to_owned();
                text.append(format.as_str());
                text.append("\" is not supported as an output format");
                text
            },
        }
    }
}

/// Every format is found again by its canonical name.
pub proof fn lemma_name_round_trip(format: ImageFormat)
    ensures
        ImageFormat::of_name(format.name()) == Some(format),
        forall|outcome: Result<ImageFormat, FormatError>|
            ImageFormat::is_parse_of(outcome, format.name()) ==> outcome == Ok::<
                ImageFormat,
                FormatError,
            >(format),
{
    reveal_strlit("png");
    reveal_strlit("jpeg");
    reveal_strlit("jpg");
    reveal_strlit("webp");
    reveal_strlit("gif");
    reveal_strlit("bmp");
    assert(ascii_lowercase(format.name()) =~= format.name());
    assert("png"@[0] == 'p' && "gif"@[0] == 'g' && "bmp"@[0] == 'b' && "jpg"@[0] == 'j');
    assert("jpeg"@[0] == 'j' && "webp"@[0] == 'w');
}

/// Names that differ only in the case of their ASCII letters stand for the
/// same format, or both for none.
pub proof fn lemma_name_case_is_ignored(a: Seq<char>, b: Seq<char>)
    requires
        same_ignoring_ascii_case(a, b),
    ensures
        ImageFormat::of_name(a) == ImageFormat::of_name(b),
{
    lemma_same_ignoring_case_folds_alike(a, b);
}

/// A name stands for a format exactly when, in lower case, it is one of
/// `png`, `jpeg`, `jpg`, `webp`, `gif` and `bmp`; any other text is turned
/// down as an unknown name.
pub proof fn lemma_unknown_names_are_rejected(name: Seq<char>, outcome: Result<ImageFormat, FormatError>)
    requires
        ImageFormat::is_parse_of(outcome, name),
    ensures
        outcome is Ok <==> {
            let lowered = ascii_lowercase(name);
            lowered == "png"@ || lowered == "jpeg"@ || lowered == "jpg"@ || lowered == "webp"@
                || lowered == "gif"@ || lowered == "bmp"@
        },
        outcome is Err ==> (outcome matches Err(FormatError::UnknownName(given)) && given@
            == name),
{
}

} // verus!

//! The quality and format parameter: the colours of the response and the
//! format it is encoded in.

use vstd::prelude::*;
use crate::raster::{
    describe_image_error, encodable, encode_image, encoded, grey_image, harden_image, height_of,
    image_height, image_width, is_grey, width_of,
};
use crate::text::{
    chars_of, has_prefix, is_word, lemma_split_nonempty, lower_text, split, split_chars, texts,
    to_lower,
};
use crate::wif_error::{bad_request, outcome, Failure, StatusCode, WifError};

verus! {

/// The message for a token without exactly one dot.
pub const QUALITY_PARSE: &'static str = "Cannot parse quality and/or format";

/// The message for an unknown format.
pub const FORMAT_PARSE: &'static str = "Cannot parse format";

/// The message for an unknown quality.
pub const QUALITY_NAME: &'static str = "Cannot parse quality";

/// The message for a picture that is too large for the format.
pub const ENCODE_REFUSED: &'static str = "Picture too large for the output format";

/// How the message of a failed encoding begins.
pub const ENCODE_FAILED: &'static str = "Could not write DynamicImage to buffer --- ";

/// The format of a response. JPEG carries its quality, 0 to 100.
#[derive(Clone, Copy, Debug, PartialEq, Eq, Structural)]
pub enum OutputFormat {
    Jpeg(u8),
    Png,
    Bmp,
    Ico,
    Tga,
}

/// The quality of a request, with the format to encode in.
#[derive(Clone, Copy, Debug, PartialEq, Eq, Structural)]
pub enum EPicQuality {
    /// The colours of the source.
    Color(OutputFormat),
    /// Greyscale.
    Gray(OutputFormat),
    /// Greyscale pushed to black and white.
    Bitonal(OutputFormat),
    /// The colours of the source.
    Default(OutputFormat),
}

/// The format that the lower-case name `name` stands for.
pub open spec fn format_named(name: Seq<char>, jpg_quality: u8) -> Option<OutputFormat> {
    if name == "jpg"@ || name == "jpeg"@ {
        Some(OutputFormat::Jpeg(jpg_quality))
    } else if name == "png"@ {
        Some(OutputFormat::Png)
    } else if name == "bmp"@ {
        Some(OutputFormat::Bmp)
    } else if name == "ico"@ {
        Some(OutputFormat::Ico)
    } else if name == "tga"@ {
        Some(OutputFormat::Tga)
    } else {
        None
    }
}

/// The quality that the name `name` stands for, with the format `f`.
pub open spec fn quality_named(name: Seq<char>, f: OutputFormat) -> Option<EPicQuality> {
    if name == "color"@ {
        Some(EPicQuality::Color(f))
    } else if name == "gray"@ {
        Some(EPicQuality::Gray(f))
    } else if name == "bitonal"@ {
        Some(EPicQuality::Bitonal(f))
    } else if name == "default"@ {
        Some(EPicQuality::Default(f))
    } else {
        None
    }
}

/// The quality that the token `s` writes: a quality name, one dot, and a
/// format name in any case; anything else is a bad request. The format is
/// looked at before the quality.
pub open spec fn parse_quality(s: Seq<char>, jpg_quality: u8) -> Result<EPicQuality, Failure> {
    let parts = split(s, '.');
    if parts.len() != 2 {
        Err(bad_request(QUALITY_PARSE@))
    } else {
        match format_named(lower_text(parts[1]), jpg_quality) {
            None => Err(bad_request(FORMAT_PARSE@)),
            Some(f) => match quality_named(parts[0], f) {
                None => Err(bad_request(QUALITY_NAME@)),
                Some(q) => Ok(q),
            },
        }
    }
}

impl OutputFormat {
    /// The content type of a response in this format.
    pub open spec fn mime_spec(self) -> Seq<char> {
        match self {
            OutputFormat::Jpeg(_) => "image/jpeg"@,
            OutputFormat::Png => "image/png"@,
            OutputFormat::Bmp => "image/bmp"@,
            OutputFormat::Ico => "image/ico"@,
            OutputFormat::Tga => "image/x-targa"@,
        }
    }

    /// The content type of a response in this format.
    pub fn mime(&self) -> (m: &'static str)
        ensures
            m@ == self.mime_spec(),
    {
        match self {
            OutputFormat::Jpeg(_) => "image/jpeg",
            OutputFormat::Png => "image/png",
            OutputFormat::Bmp => "image/bmp",
            OutputFormat::Ico => "image/ico",
            OutputFormat::Tga => "image/x-targa",
        }
    }
}

impl EPicQuality {
    /// The format to encode in.
    pub open spec fn format_spec(self) -> OutputFormat {
        match self {
            EPicQuality::Color(f) => f,
            EPicQuality::Gray(f) => f,
            EPicQuality::Bitonal(f) => f,
            EPicQuality::Default(f) => f,
        }
    }

    /// Whether the colours of the source are kept.
    pub open spec fn keeps_colors(self) -> bool {
        self is Color || self is Default
    }

    /// The format to encode in.
    pub fn format(&self) -> (f: OutputFormat)
        ensures
            f == self.format_spec(),
    {
        match self {
            EPicQuality::Color(f) => *f,
            EPicQuality::Gray(f) => *f,
            EPicQuality::Bitonal(f) => *f,
            EPicQuality::Default(f) => *f,
        }
    }

    /// Reads the quality and format token of a request. A JPEG response is
    /// encoded with the quality `jpg_quality`.
    pub fn from_str(s: &str, jpg_quality: u8) -> (r: Result<EPicQuality, WifError>)
        ensures
            outcome(r) == parse_quality(s@, jpg_quality),
    {
        let text = chars_of(s);
        let parts = split_chars(&text, '.');
        proof {
            lemma_split_nonempty(text@, '.');
            assert(texts(parts@).len() == parts@.len());
        }
        if parts.len() != 2 {
            return Err(WifError::bad_request(QUALITY_PARSE.to_owned()));
        }
        proof {
            assert(texts(parts@)[0] == parts@[0]@);
            assert(texts(parts@)[1] == parts@[1]@);
        }
        let name = to_lower(&parts[1]);
        let format = if is_word(&name, "jpg") || is_word(&name, "jpeg") {
            OutputFormat::Jpeg(jpg_quality)
        } else if is_word(&name, "png") {
            OutputFormat::Png
        } else if is_word(&name, "bmp") {
            OutputFormat::Bmp
        } else if is_word(&name, "ico") {
            OutputFormat::Ico
        } else if is_word(&name, "tga") {
            OutputFormat::Tga
        } else {
            return Err(WifError::bad_request(FORMAT_PARSE.to_owned()));
        };
        let quality = &parts[0];
        if is_word(quality, "color") {
            Ok(EPicQuality::Color(format))
        } else if is_word(quality, "gray") {
            Ok(EPicQuality::Gray(format))
        } else if is_word(quality, "bitonal") {
            Ok(EPicQuality::Bitonal(format))
        } else if is_word(quality, "default") {
            Ok(EPicQuality::Default(format))
        } else {
            Err(WifError::bad_request(QUALITY_NAME.to_owned()))
        }
    }
}

/// What becomes of the outcome of an encoding: the bytes with their format,
/// or an internal error whose message begins with [`ENCODE_FAILED`].
pub fn finish_encoding(
    written: Result<Vec<u8>, image::ImageError>,
    format: OutputFormat,
) -> (r: Result<(Vec<u8>, OutputFormat), WifError>)
    ensures
        match written {
            Ok(bytes) => r is Ok && r->Ok_0.0@ == bytes@ && r->Ok_0.1 == format,
            Err(_) => r is Err && r->Err_0.status == StatusCode::InternalServerError
                && has_prefix(r->Err_0.message@, ENCODE_FAILED@),
        },
{
    match written {
        Ok(bytes) => Ok((bytes, format)),
        Err(e) => {
            let mut message = ENCODE_FAILED.to_owned();
            let detail = describe_image_error(&e);
            message.append(detail.as_str());
            proof {
                assert(message@.take(ENCODE_FAILED@.len() as int) =~= ENCODE_FAILED@);
            }
            Err(WifError::internal_error(message))
        },
    }
}

/// Whether a `width` by `height` picture can be handed to the encoder of
/// `format`.
pub fn can_encode(width: u32, height: u32, format: OutputFormat) -> (r: bool)
    ensures
        r == encodable(width, height, format),
{
    match format {
        OutputFormat::Bmp => {
            assert(4 * width * height <= 4 * 0xFFFF_FFFF * 0xFFFF_FFFF) by (nonlinear_arith)
                requires
                    width <= 0xFFFF_FFFF,
                    height <= 0xFFFF_FFFF,
            ;
            let row: u64 = 4 * (width as u64);
            let all: u128 = 4 * (width as u128) * (height as u128) + 3 * (height as u128) + 2048;
            row <= 0xFFFF_FFFF && all <= 0xFFFF_FFFF
        },
        _ => true,
    }
}

/// What the quality stage answers for a picture that comes to the encoder
/// as `img`: an internal error for a picture too large for the format, else
/// the bytes that the encoder writes, or an internal error whose message
/// begins with [`ENCODE_FAILED`] where it writes none.
pub open spec fn encoding_of(
    img: image::DynamicImage,
    format: OutputFormat,
    r: Result<(Vec<u8>, OutputFormat), WifError>,
) -> bool {
    if !encodable(image_width(img), image_height(img), format) {
        r is Err && r->Err_0@ == crate::wif_error::internal_error(ENCODE_REFUSED@)
    } else {
        match encoded(img, format) {
            Some(bytes) => r is Ok && r->Ok_0.0@ == bytes && r->Ok_0.1 == format,
            None => r is Err && r->Err_0.status == StatusCode::InternalServerError && has_prefix(
                r->Err_0.message@,
                ENCODE_FAILED@,
            ),
        }
    }
}

/// Changes the colours of the picture as the quality asks and encodes it.
/// The quality itself is left as it was.
pub fn mutate_image_quality(quality: &mut EPicQuality, img: &mut image::DynamicImage) -> (r: Result<
    (Vec<u8>, OutputFormat),
    WifError,
>)
    ensures
        *final(quality) == *old(quality),
        image_width(*final(img)) == image_width(*old(img)),
        image_height(*final(img)) == image_height(*old(img)),
        old(quality).keeps_colors() ==> *final(img) == *old(img),
        !old(quality).keeps_colors() ==> is_grey(*final(img)),
        encoding_of(*final(img), old(quality).format_spec(), r),
{
    let format = match quality {
        EPicQuality::Color(f) => *f,
        EPicQuality::Default(f) => *f,
        EPicQuality::Gray(f) => {
            grey_image(img);
            *f
        },
        EPicQuality::Bitonal(f) => {
            grey_image(img);
            harden_image(img);
            *f
        },
    };
    if !can_encode(width_of(img), height_of(img), format) {
        return Err(WifError::internal_error(ENCODE_REFUSED.to_owned()));
    }
    let written = encode_image(img, format);
    finish_encoding(written, format)
}

} // verus!

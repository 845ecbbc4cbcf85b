//! A decoded picture on its own, outside the request pipeline.

use vstd::prelude::*;
use crate::iiif::img_info::SourceFormat;
use crate::iiif::parsing_error::ErrorReturnType;
use crate::iiif::quality::{can_encode, OutputFormat, ENCODE_FAILED, ENCODE_REFUSED};
use crate::raster::{
    describe_image_error, encodable, encode_image, encoded, height_of, image_height, image_width,
    width_of,
};
use crate::text::{
    chars_of, has_prefix, is_word, lemma_split_nonempty, lower_text, split, split_chars, texts,
    to_lower,
};

verus! {

/// The message for a file that is not there.
pub const FILE_MISSING: &'static str = "File not found";

/// The message for a name that is no file.
pub const NAME_REFUSED: &'static str = "new try...";

/// The message for a file whose extension names no format that is read.
pub const FORMAT_UNKNOWN: &'static str = "Unsupported image format";

/// A file in the picture directory.
#[derive(Debug)]
pub struct ImgInfo {
    pub filepath: String,
}

/// A decoded picture.
pub struct ImgContainer {
    pub img: image::DynamicImage,
}

/// The path of the file `name` in the picture directory.
pub open spec fn file_path(image_path: Seq<char>, name: Seq<char>) -> Seq<char> {
    image_path + "/"@ + name
}

/// The format that the extension of a path names: what follows the last
/// dot, in any case; none for a path without a dot and for an extension
/// that names no format that is read.
pub open spec fn format_of_path(path: Seq<char>) -> Option<SourceFormat> {
    let pieces = split(path, '.');
    let ext = lower_text(pieces.last());
    if pieces.len() < 2 {
        None
    } else if ext == "png"@ {
        Some(SourceFormat::Png)
    } else if ext == "jpg"@ || ext == "jpeg"@ {
        Some(SourceFormat::Jpeg)
    } else if ext == "bmp"@ {
        Some(SourceFormat::Bmp)
    } else if ext == "tif"@ || ext == "tiff"@ {
        Some(SourceFormat::Tiff)
    } else {
        None
    }
}

/// The format that the extension of a path names.
pub fn path_format(path: &str) -> (r: Option<SourceFormat>)
    ensures
        r == format_of_path(path@),
{
    let text = chars_of(path);
    let pieces = split_chars(&text, '.');
    proof {
        lemma_split_nonempty(text@, '.');
        assert(texts(pieces@).len() == pieces@.len());
        assert(texts(pieces@)[pieces@.len() - 1] == pieces@[pieces@.len() - 1]@);
    }
    if pieces.len() < 2 {
        return None;
    }
    let ext = to_lower(&pieces[pieces.len() - 1]);
    if is_word(&ext, "png") {
        Some(SourceFormat::Png)
    } else if is_word(&ext, "jpg") || is_word(&ext, "jpeg") {
        Some(SourceFormat::Jpeg)
    } else if is_word(&ext, "bmp") {
        Some(SourceFormat::Bmp)
    } else if is_word(&ext, "tif") || is_word(&ext, "tiff") {
        Some(SourceFormat::Tiff)
    } else {
        None
    }
}

impl ImgInfo {
    /// The path of the file `name` in the picture directory.
    pub fn path_of(image_path: &str, name: &str) -> (p: String)
        ensures
            p@ == file_path(image_path@, name@),
    {
        let mut p = image_path.to_owned();
        p.append("/");
        p.append(name);
        p
    }

    /// The file `s` in the picture directory, if `exists` says that it is
    /// there; a bad request otherwise.
    pub fn from_str(s: &str, image_path: &str, exists: bool) -> (r: Result<
        ImgInfo,
        ErrorReturnType,
    >)
        ensures
            exists ==> r is Ok && r->Ok_0.filepath@ == file_path(image_path@, s@),
            !exists ==> r is Err && r->Err_0 is BadRequest && r->Err_0->BadRequest_0@
                == NAME_REFUSED@,
    {
        if exists {
            Ok(ImgInfo { filepath: ImgInfo::path_of(image_path, s) })
        } else {
            Err(ErrorReturnType::BadRequest(NAME_REFUSED.to_owned()))
        }
    }
}

impl ImgContainer {
    /// The picture of the file at `path`, which the caller decoded: `decoded`
    /// holds what decoding gave, or nothing if the file is not there. A
    /// missing file is not found; a file whose extension names no format
    /// that is read, and one that cannot be decoded, are internal errors.
    pub fn from_file(
        path: &str,
        decoded: Option<Result<image::DynamicImage, image::ImageError>>,
    ) -> (r: Result<ImgContainer, ErrorReturnType>)
        ensures
            match decoded {
                None => r is Err && r->Err_0 is NotFound && r->Err_0->NotFound_0@ == FILE_MISSING@,
                Some(outcome) => match format_of_path(path@) {
                    None => r is Err && r->Err_0 is InternalError && r->Err_0->InternalError_0@
                        == FORMAT_UNKNOWN@,
                    Some(_) => match outcome {
                        Ok(img) => r is Ok && r->Ok_0.img == img,
                        Err(_) => r is Err && r->Err_0 is InternalError,
                    },
                },
            },
    {
        let outcome = match decoded {
            Some(v) => v,
            None => {
                return Err(ErrorReturnType::NotFound(FILE_MISSING.to_owned()));
            },
        };
        if path_format(path).is_none() {
            return Err(ErrorReturnType::InternalError(FORMAT_UNKNOWN.to_owned()));
        }
        match outcome {
            Ok(v) => Ok(ImgContainer { img: v }),
            Err(e) => Err(ErrorReturnType::InternalError(describe_image_error(&e))),
        }
    }

    /// The picture encoded in `format`. A picture too large for the format
    /// is an internal error, and so is one that the encoder refuses.
    pub fn body(&self, format: OutputFormat) -> (r: Result<Vec<u8>, ErrorReturnType>)
        ensures
            if !encodable(image_width(self.img), image_height(self.img), format) {
                r is Err && r->Err_0 is InternalError && r->Err_0->InternalError_0@
                    == ENCODE_REFUSED@
            } else {
                match encoded(self.img, format) {
                    Some(bytes) => r is Ok && r->Ok_0@ == bytes,
                    None => r is Err && r->Err_0 is InternalError && has_prefix(
                        r->Err_0->InternalError_0@,
                        ENCODE_FAILED@,
                    ),
                }
            },
    {
        if !can_encode(width_of(&self.img), height_of(&self.img), format) {
            return Err(ErrorReturnType::InternalError(ENCODE_REFUSED.to_owned()));
        }
        match encode_image(&self.img, format) {
            Ok(buf) => Ok(buf),
            Err(e) => {
                let mut message = ENCODE_FAILED.to_owned();
                let detail = describe_image_error(&e);
                message.append(detail.as_str());
                proof {
                    assert(message@.take(ENCODE_FAILED@.len() as int) =~= ENCODE_FAILED@);
                }
                Err(ErrorReturnType::InternalError(message))
            },
        }
    }
}

} // verus!

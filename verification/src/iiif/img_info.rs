//! Source pictures: their size, their format, and where they are looked for.

use vstd::prelude::*;
use crate::headers::{bmp_size, read_bmp_size, read_tiff_size, tiff_size};
use crate::png_rows::{open_png, png_header};
use crate::text::chars_of;
use crate::wif_error::{internal_error, not_found, Failure, WifError, INTERNAL_BODY};

verus! {

/// The format of a source picture, told by the extension of its file.
#[derive(Clone, Copy, Debug, PartialEq, Eq, Structural)]
pub enum SourceFormat {
    Png,
    Jpeg,
    Bmp,
    Tiff,
}

/// A width and a height in pixels.
#[derive(Clone, Copy, Debug, PartialEq, Eq, Structural)]
pub struct Rect {
    pub width: u32,
    pub height: u32,
}

/// A rectangle inside a picture: its top left corner and its size.
#[derive(Clone, Copy, Debug, PartialEq, Eq, Structural)]
pub struct ImgSection {
    pub x: u32,
    pub y: u32,
    pub dimensions: Rect,
}

impl ImgSection {
    /// The width of the rectangle.
    pub fn width(&self) -> (w: u32)
        ensures
            w == self.dimensions.width,
    {
        self.dimensions.width
    }

    /// The height of the rectangle.
    pub fn height(&self) -> (h: u32)
        ensures
            h == self.dimensions.height,
    {
        self.dimensions.height
    }
}

/// A file that may hold the picture of an identifier.
#[derive(Debug)]
pub struct Candidate {
    pub path: String,
    pub format: SourceFormat,
}

/// What is known of a source picture before it is decoded.
#[derive(Debug)]
pub struct ImgView {
    pub identifier: String,
    pub filepath: String,
    pub format: SourceFormat,
    pub dimensions: Rect,
}

/// How the message for an identifier without a file ends.
pub const NOT_FOUND_SUFFIX: &'static str = " not found";

/// The number of files that are looked for: five extensions, each in lower
/// and in upper case.
pub const CANDIDATES: usize = 10;

/// The extension of the `i`-th file that is looked for: `png`, `tif`,
/// `tiff`, `jpg`, `bmp`, each first in lower and then in upper case.
pub open spec fn extension(i: int) -> Seq<char> {
    if i == 0 {
        "png"@
    } else if i == 1 {
        "PNG"@
    } else if i == 2 {
        "tif"@
    } else if i == 3 {
        "TIF"@
    } else if i == 4 {
        "tiff"@
    } else if i == 5 {
        "TIFF"@
    } else if i == 6 {
        "jpg"@
    } else if i == 7 {
        "JPG"@
    } else if i == 8 {
        "bmp"@
    } else {
        "BMP"@
    }
}

/// The format of the `i`-th file that is looked for.
pub open spec fn extension_format(i: int) -> SourceFormat {
    if i < 2 {
        SourceFormat::Png
    } else if i < 6 {
        SourceFormat::Tiff
    } else if i < 8 {
        SourceFormat::Jpeg
    } else {
        SourceFormat::Bmp
    }
}

/// The path of the `i`-th file that is looked for: the picture directory, a
/// slash, the identifier, a dot and the extension.
pub open spec fn candidate_path(image_path: Seq<char>, identifier: Seq<char>, i: int) -> Seq<
    char,
> {
    image_path + "/"@ + identifier + "."@ + extension(i)
}

/// The position of the first `true` in `probe`, if there is one.
pub open spec fn first_true(probe: Seq<bool>) -> Option<int>
    decreases probe.len(),
{
    if probe.len() == 0 {
        None
    } else if probe[0] {
        Some(0int)
    } else {
        match first_true(probe.skip(1)) {
            Some(i) => Some(i + 1),
            None => None,
        }
    }
}

/// The first `true` of a probe is `true`, lies inside the probe, and has
/// none before it; without one, the probe holds none.
pub proof fn lemma_first_true(probe: Seq<bool>)
    ensures
        match first_true(probe) {
            Some(i) => 0 <= i < probe.len() && probe[i] && forall|j: int| 0 <= j < i ==> !probe[j],
            None => forall|j: int| 0 <= j < probe.len() ==> !probe[j],
        },
    decreases probe.len(),
{
    if probe.len() > 0 && !probe[0] {
        let rest = probe.skip(1);
        lemma_first_true(rest);
        match first_true(rest) {
            Some(i) => {
                assert(rest[i] == probe[i + 1]);
                assert forall|j: int| 0 <= j < i + 1 implies !probe[j] by {
                    if j > 0 {
                        assert(rest[j - 1] == probe[j]);
                    }
                }
            },
            None => {
                assert forall|j: int| 0 <= j < probe.len() implies !probe[j] by {
                    if j > 0 {
                        assert(rest[j - 1] == probe[j]);
                    }
                }
            },
        }
    }
}

/// Whether an identifier can name a file that lies directly in the picture
/// directory: it holds no path separator.
pub open spec fn names_a_file(identifier: Seq<char>) -> bool {
    !identifier.contains('/') && !identifier.contains('\\')
}

/// Which of the files looked for holds the picture of `identifier`: the
/// first that `probe` says exists. None for an identifier that can name no
/// file and for a probe that finds none among the files looked for.
pub open spec fn found_at(identifier: Seq<char>, probe: Seq<bool>) -> Option<int> {
    match first_true(probe) {
        Some(i) => if i < CANDIDATES && names_a_file(identifier) {
            Some(i)
        } else {
            None
        },
        None => None,
    }
}

/// What `jpeg_decoder::Decoder::read_info` and `info` report as the width
/// and height of the JPEG stream `bytes`; none where either fails.
pub uninterp spec fn jpeg_frame_size(bytes: Seq<u8>) -> Option<(u16, u16)>;

/// Reads the size of a picture from the markers of a JPEG stream. Trusted:
/// `jpeg_decoder::Decoder::new` over the bytes, `read_info` and `info`;
/// what is reported depends on the bytes alone and is named
/// [`jpeg_frame_size`].
#[verifier::external_body]
pub(crate) fn read_jpeg_size(bytes: &[u8]) -> (r: Option<(u16, u16)>)
    ensures
        r == jpeg_frame_size(bytes@),
{
    let mut decoder = jpeg_decoder::Decoder::new(bytes);
    match decoder.read_info() {
        Ok(_) => decoder.info().map(|i| (i.width, i.height)),
        Err(_) => None,
    }
}

/// The size that the header of a file states, read as `format` asks.
pub open spec fn header_size(bytes: Seq<u8>, format: SourceFormat) -> Option<(u32, u32)> {
    match format {
        SourceFormat::Png => match png_header(bytes) {
            Some(h) => Some((h.width, h.height)),
            None => None,
        },
        SourceFormat::Jpeg => match jpeg_frame_size(bytes) {
            Some(s) => Some((s.0 as u32, s.1 as u32)),
            None => None,
        },
        SourceFormat::Bmp => bmp_size(bytes),
        SourceFormat::Tiff => tiff_size(bytes),
    }
}

/// The dimensions that a stated size stands for; none for no size and for
/// a size without pixels.
pub open spec fn rect_of_size(size: Option<(u32, u32)>) -> Option<Rect> {
    match size {
        Some((w, h)) => if w >= 1 && h >= 1 {
            Some(Rect { width: w, height: h })
        } else {
            None
        },
        None => None,
    }
}

/// The path, the format and the dimensions of the picture of `identifier`,
/// where `probe` says which of the files looked for exist and `contents`
/// holds the first that does; or why nothing is known of it: without such a
/// file the identifier is not found, and a file whose header states no size
/// is an internal error.
pub open spec fn resolved(
    identifier: Seq<char>,
    image_path: Seq<char>,
    probe: Seq<bool>,
    contents: Seq<u8>,
) -> Result<(Seq<char>, SourceFormat, Rect), Failure> {
    match found_at(identifier, probe) {
        Some(i) => match rect_of_size(header_size(contents, extension_format(i))) {
            Some(rect) => Ok((candidate_path(image_path, identifier, i), extension_format(i), rect)),
            None => Err(internal_error(INTERNAL_BODY@)),
        },
        None => Err(not_found(identifier + NOT_FOUND_SUFFIX@)),
    }
}

/// The `i`-th extension that is looked for.
pub fn extension_text(i: usize) -> (e: &'static str)
    requires
        i < CANDIDATES,
    ensures
        e@ == extension(i as int),
{
    if i == 0 {
        "png"
    } else if i == 1 {
        "PNG"
    } else if i == 2 {
        "tif"
    } else if i == 3 {
        "TIF"
    } else if i == 4 {
        "tiff"
    } else if i == 5 {
        "TIFF"
    } else if i == 6 {
        "jpg"
    } else if i == 7 {
        "JPG"
    } else if i == 8 {
        "bmp"
    } else {
        "BMP"
    }
}

/// The format of the `i`-th file that is looked for.
pub fn format_at(i: usize) -> (f: SourceFormat)
    ensures
        f == extension_format(i as int),
{
    if i < 2 {
        SourceFormat::Png
    } else if i < 6 {
        SourceFormat::Tiff
    } else if i < 8 {
        SourceFormat::Jpeg
    } else {
        SourceFormat::Bmp
    }
}

/// The position of the first `true` in `probe`.
pub fn find_first(probe: &Vec<bool>) -> (r: Option<usize>)
    ensures
        match r {
            Some(i) => first_true(probe@) == Some(i as int),
            None => first_true(probe@) is None,
        },
{
    let mut i: usize = 0;
    while i < probe.len()
        invariant
            i <= probe.len(),
            forall|j: int| 0 <= j < i ==> !probe@[j],
        decreases probe.len() - i,
    {
        if probe[i] {
            proof {
                lemma_first_true(probe@);
            }
            return Some(i);
        }
        i += 1;
    }
    proof {
        lemma_first_true(probe@);
    }
    None
}

/// Whether an identifier can name a file that lies directly in the picture
/// directory.
pub fn is_file_name(identifier: &str) -> (r: bool)
    ensures
        r == names_a_file(identifier@),
{
    let text = chars_of(identifier);
    let mut i: usize = 0;
    while i < text.len()
        invariant
            i <= text.len(),
            text@ == identifier@,
            forall|j: int| 0 <= j < i ==> text@[j] != '/' && text@[j] != '\\',
        decreases text.len() - i,
    {
        if text[i] == '/' || text[i] == '\\' {
            proof {
                assert(text@.contains(text@[i as int]));
            }
            return false;
        }
        i += 1;
    }
    proof {
        if text@.contains('/') {
            let j = choose|j: int| 0 <= j < text@.len() && text@[j] == '/';
        }
        if text@.contains('\\') {
            let j = choose|j: int| 0 <= j < text@.len() && text@[j] == '\\';
        }
    }
    true
}

impl ImgView {
    /// Whether the picture has at least one pixel.
    pub open spec fn wf(self) -> bool {
        self.dimensions.width >= 1 && self.dimensions.height >= 1
    }

    /// The path of the `i`-th file that is looked for.
    pub fn candidate(image_path: &str, identifier: &str, i: usize) -> (c: Candidate)
        requires
            i < CANDIDATES,
        ensures
            c.path@ == candidate_path(image_path@, identifier@, i as int),
            c.format == extension_format(i as int),
    {
        let mut path = image_path.to_owned();
        path.append("/");
        path.append(identifier);
        path.append(".");
        path.append(extension_text(i));
        Candidate { path, format: format_at(i) }
    }

    /// The files that are looked for, in the order in which they count;
    /// none for an identifier that can name no file.
    pub fn candidates(image_path: &str, identifier: &str) -> (list: Vec<Candidate>)
        ensures
            names_a_file(identifier@) ==> list.len() == CANDIDATES,
            !names_a_file(identifier@) ==> list.len() == 0,
            forall|i: int|
                0 <= i < list.len() ==> (#[trigger] list@[i]).path@ == candidate_path(
                    image_path@,
                    identifier@,
                    i,
                ) && list@[i].format == extension_format(i),
    {
        let mut list: Vec<Candidate> = Vec::new();
        if !is_file_name(identifier) {
            return list;
        }
        let mut i: usize = 0;
        while i < CANDIDATES
            invariant
                i <= CANDIDATES,
                list.len() == i,
                forall|k: int|
                    0 <= k < i ==> (#[trigger] list@[k]).path@ == candidate_path(
                        image_path@,
                        identifier@,
                        k,
                    ) && list@[k].format == extension_format(k),
            decreases CANDIDATES - i,
        {
            list.push(ImgView::candidate(image_path, identifier, i));
            i += 1;
        }
        list
    }

    /// The file that holds the picture: the first of the files looked for
    /// that `probe` says exists. `probe` holds one answer per file, in the
    /// order of [`ImgView::candidates`]; answers beyond the tenth do not
    /// count, and an identifier that can name no file has no file.
    pub fn locate(image_path: &str, identifier: &str, probe: &Vec<bool>) -> (r: Option<Candidate>)
        ensures
            match found_at(identifier@, probe@) {
                Some(i) => r is Some && r->0.path@ == candidate_path(image_path@, identifier@, i)
                    && r->0.format == extension_format(i),
                None => r is None,
            },
    {
        if !is_file_name(identifier) {
            return None;
        }
        match find_first(probe) {
            Some(i) => if i < CANDIDATES {
                Some(ImgView::candidate(image_path, identifier, i))
            } else {
                None
            },
            None => None,
        }
    }

    /// What becomes of a stated size: the dimensions, or an internal error
    /// for no size and for a size without pixels.
    pub fn rect_of(size: Option<(u32, u32)>) -> (r: Result<Rect, WifError>)
        ensures
            match rect_of_size(size) {
                Some(rect) => r == Ok::<Rect, WifError>(rect),
                None => r is Err && r->Err_0@ == internal_error(INTERNAL_BODY@),
            },
    {
        match size {
            Some((w, h)) => if w >= 1 && h >= 1 {
                Ok(Rect { width: w, height: h })
            } else {
                Err(WifError::internal_error(INTERNAL_BODY.to_owned()))
            },
            None => Err(WifError::internal_error(INTERNAL_BODY.to_owned())),
        }
    }

    /// The dimensions that the header of a file states, without decoding
    /// its pixels. `bytes` holds the file, or as much of its beginning as
    /// holds the header.
    pub fn get_dimensions(bytes: &[u8], format: &SourceFormat) -> (r: Result<Rect, WifError>)
        ensures
            match rect_of_size(header_size(bytes@, *format)) {
                Some(rect) => r == Ok::<Rect, WifError>(rect),
                None => r is Err && r->Err_0@ == internal_error(INTERNAL_BODY@),
            },
    {
        let size = match format {
            SourceFormat::Png => match open_png(bytes) {
                Some((header, _)) => Some((header.width, header.height)),
                None => None,
            },
            SourceFormat::Jpeg => match read_jpeg_size(bytes) {
                Some((w, h)) => Some((w as u32, h as u32)),
                None => None,
            },
            SourceFormat::Bmp => read_bmp_size(bytes),
            SourceFormat::Tiff => read_tiff_size(bytes),
        };
        ImgView::rect_of(size)
    }

    /// What is known of the picture of `identifier`. `probe` says for each
    /// file of [`ImgView::candidates`] whether it exists, and `contents`
    /// holds the first one that does, the one that [`ImgView::locate`]
    /// names. Without such a file, and with an identifier that can name no
    /// file, the identifier is not found; a file whose header states no size
    /// is an internal error.
    pub fn for_identifier(
        identifier: &str,
        image_path: &str,
        probe: &Vec<bool>,
        contents: &[u8],
    ) -> (r: Result<ImgView, WifError>)
        ensures
            match resolved(identifier@, image_path@, probe@, contents@) {
                Ok((path, format, dimensions)) => {
                    &&& r is Ok
                    &&& r->Ok_0.identifier@ == identifier@
                    &&& r->Ok_0.filepath@ == path
                    &&& r->Ok_0.format == format
                    &&& r->Ok_0.dimensions == dimensions
                    &&& r->Ok_0.wf()
                },
                Err(e) => r is Err && r->Err_0@ == e,
            },
    {
        match ImgView::locate(image_path, identifier, probe) {
            Some(found) => {
                let dimensions = ImgView::get_dimensions(contents, &found.format)?;
                Ok(
                    ImgView {
                        dimensions,
                        identifier: identifier.to_owned(),
                        filepath: found.path,
                        format: found.format,
                    },
                )
            },
            None => {
                let mut message = identifier.to_owned();
                message.append(NOT_FOUND_SUFFIX);
                Err(WifError::not_found(message))
            },
        }
    }

    /// The width of the picture.
    pub fn width(&self) -> (w: u32)
        ensures
            w == self.dimensions.width,
    {
        self.dimensions.width
    }

    /// The height of the picture.
    pub fn height(&self) -> (h: u32)
        ensures
            h == self.dimensions.height,
    {
        self.dimensions.height
    }
}

} // verus!

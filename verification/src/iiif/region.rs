//! The region parameter: which rectangle of the source a request selects.

use vstd::prelude::*;
use crate::iiif::img_info::{ImgSection, ImgView, Rect, SourceFormat};
use crate::png_rows::{
    bytes_per_pixel, copy_window, lemma_window_len, open_png, pixel_size, png_header, png_rows,
    window_bytes, window_fits, PngColor,
};
use crate::number::{clip, parse_decimal, Decimal};
use crate::raster::{
    crop_image, describe_image_error, height_of, holds_raw,
    image_height, image_width, is_crop, lesser, luma8_from_raw, luma_alpha8_from_raw,
    rgb8_from_raw, rgba8_from_raw, width_of,
};
use crate::text::{
    chars_of, has_prefix, is_word, lemma_split_nonempty, split, split_chars, starts_with,
    tail_from, texts,
};
use crate::wif_error::{bad_request, outcome, Failure, StatusCode, WifError, INTERNAL_BODY};

verus! {

/// The message for a region that does not have four numeric fields.
pub const REGION_FORMAT: &'static str =
    "Request string must contain parameters for coordinates, width and height in the format x,y,w,h.";

/// The message for a region with more than four fields.
pub const REGION_TOO_MANY: &'static str =
    "Request string must not contain more than x,y,w,h parameters.";

/// The message for a region without width or without height.
pub const REGION_ZERO: &'static str = "Width and Height are not allowed to be 0.";

/// The message for a percent region that starts at or beyond 100 percent.
pub const REGION_OUTSIDE: &'static str =
    "Image region must be within the boundaries of the image!.";

/// The message for a region that starts outside the picture.
pub const REGION_BOUNDS: &'static str = "Region is out of bounds";

/// The region of a request.
#[derive(Clone, Copy, Debug, PartialEq, Eq, Structural)]
pub enum EPicRegion {
    /// The whole picture.
    Full,
    /// The largest centred square.
    Square,
    /// A rectangle in pixels.
    Reg { x: Decimal, y: Decimal, w: Decimal, h: Decimal },
    /// A rectangle in percent of the picture's width and height.
    RegPerc { x: Decimal, y: Decimal, w: Decimal, h: Decimal },
}

/// The four numbers `x,y,w,h` that `body` writes, or the message that says
/// what is wrong with it: more than four fields; fewer, or one that is no
/// number; a width or height of zero.
pub open spec fn region_numbers(body: Seq<char>) -> Result<
    (Decimal, Decimal, Decimal, Decimal),
    Seq<char>,
> {
    let f = split(body, ',');
    if f.len() > 4 {
        Err(REGION_TOO_MANY@)
    } else if f.len() < 4 || parse_decimal(f[0]) is None || parse_decimal(f[1]) is None
        || parse_decimal(f[2]) is None || parse_decimal(f[3]) is None {
        Err(REGION_FORMAT@)
    } else {
        let x = parse_decimal(f[0])->0;
        let y = parse_decimal(f[1])->0;
        let w = parse_decimal(f[2])->0;
        let h = parse_decimal(f[3])->0;
        if w.micros == 0 || h.micros == 0 {
            Err(REGION_ZERO@)
        } else {
            Ok((x, y, w, h))
        }
    }
}

/// The region that the token `s` writes: `full`, `square`, `pct:x,y,w,h`
/// with `x` and `y` below 100, or `x,y,w,h`; anything else is a bad request.
pub open spec fn parse_region(s: Seq<char>) -> Result<EPicRegion, Failure> {
    if s == "full"@ {
        Ok(EPicRegion::Full)
    } else if s == "square"@ {
        Ok(EPicRegion::Square)
    } else if has_prefix(s, "pct:"@) {
        match region_numbers(s.skip("pct:"@.len() as int)) {
            Err(m) => Err(bad_request(m)),
            Ok((x, y, w, h)) => if x.micros >= 100_000_000 || y.micros >= 100_000_000 {
                Err(bad_request(REGION_OUTSIDE@))
            } else {
                Ok(EPicRegion::RegPerc { x, y, w, h })
            },
        }
    } else {
        match region_numbers(s) {
            Err(m) => Err(bad_request(m)),
            Ok((x, y, w, h)) => Ok(EPicRegion::Reg { x, y, w, h }),
        }
    }
}

/// The rectangle that a request for the pixels `x,y,w,h` selects in a
/// picture of the given size, or the message that refuses it: the corner
/// must lie inside the picture, the size must not be zero, and what reaches
/// beyond the right or lower edge is cut off.
pub open spec fn pixel_section(
    x: u32,
    y: u32,
    w: u32,
    h: u32,
    width: u32,
    height: u32,
) -> Result<ImgSection, Seq<char>> {
    if x >= width || y >= height {
        Err(REGION_BOUNDS@)
    } else if w == 0 || h == 0 {
        Err(REGION_ZERO@)
    } else {
        Ok(
            ImgSection {
                x,
                y,
                dimensions: Rect {
                    width: lesser(w as int, width - x) as u32,
                    height: lesser(h as int, height - y) as u32,
                },
            },
        )
    }
}

/// The largest centred square of a picture of the given size.
pub open spec fn square_section(width: u32, height: u32) -> ImgSection {
    if width > height {
        ImgSection {
            x: ((width - height) / 2) as u32,
            y: 0,
            dimensions: Rect { width: height, height },
        }
    } else if width < height {
        ImgSection {
            x: 0,
            y: ((height - width) / 2) as u32,
            dimensions: Rect { width, height: width },
        }
    } else {
        ImgSection { x: 0, y: 0, dimensions: Rect { width, height } }
    }
}

/// The samples of the rectangle `section` of the PNG stream `bytes`, with
/// their colour layout, as far as they can be cut out of the rows of the
/// stream: the header can be read and states the size `dims`, the rows are
/// not interlaced and hold eight bit samples of grey or colour, the
/// rectangle lies inside the picture, its right edge can be addressed, and
/// every row down to its lower edge decodes.
pub open spec fn png_window(bytes: Seq<u8>, section: ImgSection, dims: Rect) -> Option<
    (PngColor, Seq<u8>),
> {
    match png_header(bytes) {
        None => None,
        Some(h) => {
            let size = bytes_per_pixel(h.color, h.depth) as int;
            let from = section.x * size;
            let to = (section.x + section.dimensions.width) * size;
            if h.width != dims.width || h.height != dims.height || h.interlaced || h.depth != 8
                || h.color is Indexed || section.x + section.dimensions.width > h.width
                || section.y + section.dimensions.height > h.height || to > usize::MAX
                || !window_fits(
                png_rows(bytes),
                to,
                section.y as int,
                section.dimensions.height as nat,
            ) {
                None
            } else {
                Some(
                    (
                        h.color,
                        window_bytes(
                            png_rows(bytes),
                            from,
                            to,
                            section.y as int,
                            section.dimensions.height as nat,
                        ),
                    ),
                )
            }
        },
    }
}

impl EPicRegion {
    /// The rectangle that the region selects in a picture of the given
    /// size, or the message that refuses it. Pixel values are rounded to
    /// whole pixels; percent values are taken of the width and the height
    /// and rounded.
    pub open spec fn section(self, width: u32, height: u32) -> Result<ImgSection, Seq<char>> {
        match self {
            EPicRegion::Full => Ok(ImgSection { x: 0, y: 0, dimensions: Rect { width, height } }),
            EPicRegion::Square => Ok(square_section(width, height)),
            EPicRegion::Reg { x, y, w, h } => pixel_section(
                clip(x.rounded()),
                clip(y.rounded()),
                clip(w.rounded()),
                clip(h.rounded()),
                width,
                height,
            ),
            EPicRegion::RegPerc { x, y, w, h } => pixel_section(
                clip(x.percent_of_spec(width as nat)),
                clip(y.percent_of_spec(height as nat)),
                clip(w.percent_of_spec(width as nat)),
                clip(h.percent_of_spec(height as nat)),
                width,
                height,
            ),
        }
    }

    /// Tests a pixel rectangle against a picture of size `dim`. The first
    /// component says whether the corner lies inside the picture; if it does,
    /// the others are the corner and the size, where a width or height that
    /// reaches beyond the edge is replaced by the picture's own.
    pub fn rect_in_bounds(dim: (u32, u32), x: u32, y: u32, w: u32, h: u32) -> (r: (
        bool,
        u32,
        u32,
        u32,
        u32,
    ))
        ensures
            r.0 == (x < dim.0 && y < dim.1),
            !r.0 ==> r == (false, 0u32, 0u32, 0u32, 0u32),
            r.0 ==> r.1 == x && r.2 == y,
            r.0 ==> r.3 == (if x + w > dim.0 {
                dim.0
            } else {
                w
            }),
            r.0 ==> r.4 == (if y + h > dim.1 {
                dim.1
            } else {
                h
            }),
    {
        if x >= dim.0 || y >= dim.1 {
            return (false, 0, 0, 0, 0);
        }
        let mut wp = w;
        let mut hp = h;
        if x as u64 + w as u64 > dim.0 as u64 {
            wp = dim.0;
        }
        if y as u64 + h as u64 > dim.1 as u64 {
            hp = dim.1;
        }
        (true, x, y, wp, hp)
    }

    /// Tests a percent rectangle against a picture of size `dim`, as
    /// [`EPicRegion::rect_in_bounds`] does for the pixels that the percent
    /// values come to.
    pub fn rect_in_bounds_perc(
        dim: (u32, u32),
        x: &Decimal,
        y: &Decimal,
        w: &Decimal,
        h: &Decimal,
    ) -> (r: (bool, u32, u32, u32, u32))
        ensures
            ({
                let xp = clip(x.percent_of_spec(dim.0 as nat));
                let yp = clip(y.percent_of_spec(dim.1 as nat));
                let wp = clip(w.percent_of_spec(dim.0 as nat));
                let hp = clip(h.percent_of_spec(dim.1 as nat));
                &&& r.0 == (xp < dim.0 && yp < dim.1)
                &&& !r.0 ==> r == (false, 0u32, 0u32, 0u32, 0u32)
                &&& r.0 ==> r.1 == xp && r.2 == yp
                &&& r.0 ==> r.3 == (if xp + wp > dim.0 {
                    dim.0
                } else {
                    wp
                })
                &&& r.0 ==> r.4 == (if yp + hp > dim.1 {
                    dim.1
                } else {
                    hp
                })
            }),
    {
        let xp = x.percent_of(dim.0);
        let yp = y.percent_of(dim.1);
        let wp = w.percent_of(dim.0);
        let hp = h.percent_of(dim.1);
        EPicRegion::rect_in_bounds(dim, xp, yp, wp, hp)
    }

    /// Cuts the selected rectangle out of the picture. A region that is
    /// refused leaves the picture as it was, and so do the whole picture and
    /// the square of a square picture.
    pub fn mutate_image_region(&self, img: &mut image::DynamicImage) -> (r: Result<(), WifError>)
        ensures
            match self.section(image_width(*old(img)), image_height(*old(img))) {
                Ok(s) => {
                    &&& r is Ok
                    &&& is_crop(
                        *old(img),
                        *final(img),
                        s.x,
                        s.y,
                        s.dimensions.width,
                        s.dimensions.height,
                    )
                    &&& image_width(*final(img)) == s.dimensions.width
                    &&& image_height(*final(img)) == s.dimensions.height
                },
                Err(m) => r is Err && r->Err_0@ == bad_request(m) && *final(img) == *old(img),
            },
            self is Full ==> *final(img) == *old(img),
            self is Square && image_width(*old(img)) == image_height(*old(img)) ==> *final(img)
                == *old(img),
    {
        let dim = (width_of(img), height_of(img));
        let checked = match self {
            EPicRegion::Full => {
                return Ok(());
            },
            EPicRegion::Square => {
                if dim.0 > dim.1 {
                    crop_image(img, (dim.0 - dim.1) / 2, 0, dim.1, dim.1);
                } else if dim.0 < dim.1 {
                    crop_image(img, 0, (dim.1 - dim.0) / 2, dim.0, dim.0);
                }
                return Ok(());
            },
            EPicRegion::Reg { x, y, w, h } => EPicRegion::rect_in_bounds(
                dim,
                x.round(),
                y.round(),
                w.round(),
                h.round(),
            ),
            EPicRegion::RegPerc { x, y, w, h } => EPicRegion::rect_in_bounds_perc(dim, x, y, w, h),
        };
        match checked {
            (true, xp, yp, wp, hp) => {
                if wp == 0 || hp == 0 {
                    return Err(WifError::bad_request(REGION_ZERO.to_owned()));
                }
                crop_image(img, xp, yp, wp, hp);
                Ok(())
            },
            (false, _, _, _, _) => Err(WifError::bad_request(REGION_BOUNDS.to_owned())),
        }
    }

    /// The rectangle of a PNG picture that the region lets be cut out of
    /// the rows of the stream: none for the whole picture, for a square of a
    /// square picture, and for a region that is refused.
    pub open spec fn png_section(self, dims: Rect) -> Option<ImgSection> {
        match self {
            EPicRegion::Full => None,
            EPicRegion::Square => if dims.width == dims.height {
                None
            } else {
                Some(square_section(dims.width, dims.height))
            },
            _ => match self.section(dims.width, dims.height) {
                Ok(s) => Some(s),
                Err(_) => None,
            },
        }
    }

    /// Decodes the rows of a PNG stream down to the lower edge of `section`
    /// and builds the picture of that rectangle from them.
    pub fn read_png_section(source: &[u8], section: ImgSection, dims: Rect) -> (r: Option<
        image::DynamicImage,
    >)
        ensures
            match png_window(source@, section, dims) {
                Some((color, samples)) => r is Some && holds_raw(
                    r->0,
                    color,
                    bytes_per_pixel(color, 8) as int,
                    section.dimensions.width,
                    section.dimensions.height,
                    samples,
                ),
                None => r is None,
            },
    {
        let (header, mut rows) = match open_png(source) {
            Some(v) => v,
            None => {
                return None;
            },
        };
        if header.width != dims.width || header.height != dims.height || header.interlaced
            || header.depth != 8 {
            return None;
        }
        let color = header.color;
        if let PngColor::Indexed = color {
            return None;
        }
        let width = section.width();
        let height = section.height();
        if section.x as u64 + width as u64 > header.width as u64 || section.y as u64
            + height as u64 > header.height as u64 {
            return None;
        }
        let size = pixel_size(color, header.depth);
        assert((section.x + width) * size <= 0x1_0000_0000 * 8) by (nonlinear_arith)
            requires
                section.x + width <= 0x1_0000_0000,
                size <= 8,
        ;
        let reach: u64 = (section.x as u64 + width as u64) * size as u64;
        if reach > usize::MAX as u64 {
            return None;
        }
        assert(section.x * size <= (section.x + width) * size) by (nonlinear_arith)
            requires
                size >= 1,
        ;
        let from: usize = section.x as usize * size;
        let to: usize = (section.x as usize + width as usize) * size;
        let buf = match copy_window(&mut rows, from, to, section.y, height) {
            Some(b) => b,
            None => {
                return None;
            },
        };
        proof {
            lemma_window_len(
                png_rows(source@),
                from as int,
                to as int,
                section.y as int,
                height as nat,
            );
            assert(to - from == width * size) by (nonlinear_arith)
                requires
                    from == section.x * size,
                    to == (section.x + width) * size,
            ;
            assert(height * (to - from) == width * height * size) by (nonlinear_arith)
                requires
                    to - from == width * size,
            ;
            assert(buf@.len() == width * height * size);
            assert(size == bytes_per_pixel(color, 8));
            assert(png_window(source@, section, dims) == Some((color, buf@)));
        }
        match color {
            PngColor::Rgb => {
                assert(width * height * size == width * height * 3) by (nonlinear_arith)
                    requires
                        size == 3,
                ;
                rgb8_from_raw(width, height, buf)
            },
            PngColor::Rgba => {
                assert(width * height * size == width * height * 4) by (nonlinear_arith)
                    requires
                        size == 4,
                ;
                rgba8_from_raw(width, height, buf)
            },
            PngColor::Grayscale => {
                assert(width * height * size == width * height) by (nonlinear_arith)
                    requires
                        size == 1,
                ;
                luma8_from_raw(width, height, buf)
            },
            PngColor::GrayscaleAlpha => {
                assert(width * height * size == width * height * 2) by (nonlinear_arith)
                    requires
                        size == 2,
                ;
                luma_alpha8_from_raw(width, height, buf)
            },
            PngColor::Indexed => None,
        }
    }

    /// Cuts the region out of the rows of a PNG stream, where the source is
    /// a PNG file and the region allows it.
    pub fn try_get_from_png(&self, img_view: &ImgView, source: &[u8]) -> (r: Option<
        image::DynamicImage,
    >)
        ensures
            match self.window(img_view, source@) {
                Some((s, color, samples)) => r is Some && holds_raw(
                    r->0,
                    color,
                    bytes_per_pixel(color, 8) as int,
                    s.dimensions.width,
                    s.dimensions.height,
                    samples,
                ),
                None => r is None,
            },
    {
        match img_view.format {
            SourceFormat::Png => {},
            _ => {
                return None;
            },
        }
        let dims = img_view.dimensions;
        let section = match self {
            EPicRegion::Full => {
                return None;
            },
            EPicRegion::Square => {
                if dims.width > dims.height {
                    ImgSection {
                        x: (dims.width - dims.height) / 2,
                        y: 0,
                        dimensions: Rect { width: dims.height, height: dims.height },
                    }
                } else if dims.width == dims.height {
                    return None;
                } else {
                    ImgSection {
                        x: 0,
                        y: (dims.height - dims.width) / 2,
                        dimensions: Rect { width: dims.width, height: dims.width },
                    }
                }
            },
            EPicRegion::Reg { x, y, w, h } => {
                match EPicRegion::rect_in_bounds(
                    (dims.width, dims.height),
                    x.round(),
                    y.round(),
                    w.round(),
                    h.round(),
                ) {
                    (true, xp, yp, wp, hp) => {
                        if wp == 0 || hp == 0 {
                            return None;
                        }
                        EPicRegion::clamped(xp, yp, wp, hp, dims)
                    },
                    (false, _, _, _, _) => {
                        return None;
                    },
                }
            },
            EPicRegion::RegPerc { x, y, w, h } => {
                match EPicRegion::rect_in_bounds_perc((dims.width, dims.height), x, y, w, h) {
                    (true, xp, yp, wp, hp) => {
                        if wp == 0 || hp == 0 {
                            return None;
                        }
                        EPicRegion::clamped(xp, yp, wp, hp, dims)
                    },
                    (false, _, _, _, _) => {
                        return None;
                    },
                }
            },
        };
        EPicRegion::read_png_section(source, section, img_view.dimensions)
    }

    /// The rectangle with corner `(x, y)` and size `(w, h)`, cut off at the
    /// right and lower edge of a picture of size `dims`.
    pub fn clamped(x: u32, y: u32, w: u32, h: u32, dims: Rect) -> (s: ImgSection)
        requires
            x < dims.width,
            y < dims.height,
        ensures
            s.x == x,
            s.y == y,
            s.dimensions.width == lesser(w as int, dims.width - x),
            s.dimensions.height == lesser(h as int, dims.height - y),
    {
        let width = if w > dims.width - x {
            dims.width - x
        } else {
            w
        };
        let height = if h > dims.height - y {
            dims.height - y
        } else {
            h
        };
        ImgSection { x, y, dimensions: Rect { width, height } }
    }

    /// The picture of the region, from the picture that the caller decoded
    /// from the file that `img_view` describes, or from the error that
    /// decoding gave. A file that cannot be decoded and a picture of another
    /// size than `img_view` states are internal errors; a region that is
    /// refused is a bad request.
    pub fn from_file(
        &self,
        img_view: &ImgView,
        decoded: Result<image::DynamicImage, image::ImageError>,
    ) -> (r: Result<image::DynamicImage, WifError>)
        ensures
            match decoded {
                Err(_) => r is Err && r->Err_0.status == StatusCode::InternalServerError,
                Ok(img) => if image_width(img) != img_view.dimensions.width || image_height(img)
                    != img_view.dimensions.height {
                    r is Err && r->Err_0@ == crate::wif_error::internal_error(INTERNAL_BODY@)
                } else {
                    match self.section(img_view.dimensions.width, img_view.dimensions.height) {
                        Ok(s) => {
                            &&& r is Ok
                            &&& is_crop(
                                img,
                                r->Ok_0,
                                s.x,
                                s.y,
                                s.dimensions.width,
                                s.dimensions.height,
                            )
                            &&& image_width(r->Ok_0) == s.dimensions.width
                            &&& image_height(r->Ok_0) == s.dimensions.height
                        },
                        Err(m) => r is Err && r->Err_0@ == bad_request(m),
                    }
                },
            },
    {
        let mut dyn_img = match decoded {
            Ok(v) => v,
            Err(e) => {
                return Err(WifError::internal_error(describe_image_error(&e)));
            },
        };
        if width_of(&dyn_img) != img_view.dimensions.width || height_of(&dyn_img)
            != img_view.dimensions.height {
            return Err(WifError::internal_error(INTERNAL_BODY.to_owned()));
        }
        self.mutate_image_region(&mut dyn_img)?;
        Ok(dyn_img)
    }

    /// The rectangle, the colour layout and the samples that are cut out of
    /// the rows of a PNG stream without decoding the whole picture; none
    /// where the whole picture is decoded.
    pub open spec fn window(self, img_view: &ImgView, source: Seq<u8>) -> Option<
        (ImgSection, PngColor, Seq<u8>),
    > {
        if !(img_view.format is Png) {
            None
        } else {
            match self.png_section(img_view.dimensions) {
                None => None,
                Some(s) => match png_window(source, s, img_view.dimensions) {
                    None => None,
                    Some((color, samples)) => Some((s, color, samples)),
                },
            }
        }
    }

    /// The rectangle that is cut out of the rows of a PNG stream is the one
    /// that the region selects.
    pub proof fn lemma_png_section(self, dims: Rect)
        ensures
            self.png_section(dims) is Some ==> self.section(dims.width, dims.height) == Ok::<
                ImgSection,
                Seq<char>,
            >(self.png_section(dims)->0),
    {
    }

    /// A region that is granted lies inside the picture and, if the picture
    /// has pixels, has pixels itself.
    pub proof fn lemma_section_inside(self, width: u32, height: u32)
        requires
            self.section(width, height) is Ok,
        ensures
            self.section(width, height)->Ok_0.x + self.section(
                width,
                height,
            )->Ok_0.dimensions.width <= width,
            self.section(width, height)->Ok_0.y + self.section(
                width,
                height,
            )->Ok_0.dimensions.height <= height,
            width >= 1 && height >= 1 ==> self.section(width, height)->Ok_0.dimensions.width >= 1
                && self.section(width, height)->Ok_0.dimensions.height >= 1,
    {
    }

    /// Reads the four numbers of a region.
    pub fn read_numbers(body: &Vec<char>) -> (r: Result<
        (Decimal, Decimal, Decimal, Decimal),
        WifError,
    >)
        ensures
            match region_numbers(body@) {
                Ok(q) => r == Ok::<(Decimal, Decimal, Decimal, Decimal), WifError>(q),
                Err(m) => r is Err && r->Err_0@ == bad_request(m),
            },
    {
        let fields = split_chars(body, ',');
        proof {
            lemma_split_nonempty(body@, ',');
            assert(texts(fields@).len() == fields@.len());
        }
        if fields.len() > 4 {
            return Err(WifError::bad_request(REGION_TOO_MANY.to_owned()));
        }
        if fields.len() < 4 {
            return Err(WifError::bad_request(REGION_FORMAT.to_owned()));
        }
        proof {
            assert(texts(fields@)[0] == fields@[0]@);
            assert(texts(fields@)[1] == fields@[1]@);
            assert(texts(fields@)[2] == fields@[2]@);
            assert(texts(fields@)[3] == fields@[3]@);
        }
        let x = match Decimal::parse(&fields[0]) {
            Some(v) => v,
            None => {
                return Err(WifError::bad_request(REGION_FORMAT.to_owned()));
            },
        };
        let y = match Decimal::parse(&fields[1]) {
            Some(v) => v,
            None => {
                return Err(WifError::bad_request(REGION_FORMAT.to_owned()));
            },
        };
        let w = match Decimal::parse(&fields[2]) {
            Some(v) => v,
            None => {
                return Err(WifError::bad_request(REGION_FORMAT.to_owned()));
            },
        };
        let h = match Decimal::parse(&fields[3]) {
            Some(v) => v,
            None => {
                return Err(WifError::bad_request(REGION_FORMAT.to_owned()));
            },
        };
        if w.is_zero() || h.is_zero() {
            return Err(WifError::bad_request(REGION_ZERO.to_owned()));
        }
        Ok((x, y, w, h))
    }

    /// Reads the region token of a request.
    pub fn from_str(s: &str) -> (r: Result<EPicRegion, WifError>)
        ensures
            outcome(r) == parse_region(s@),
    {
        let text = chars_of(s);
        if is_word(&text, "full") {
            return Ok(EPicRegion::Full);
        }
        if is_word(&text, "square") {
            return Ok(EPicRegion::Square);
        }
        if starts_with(&text, "pct:") {
            let prefix = chars_of("pct:");
            let body = tail_from(&text, prefix.len());
            let (x, y, w, h) = EPicRegion::read_numbers(&body)?;
            if x.at_least(100) || y.at_least(100) {
                return Err(WifError::bad_request(REGION_OUTSIDE.to_owned()));
            }
            Ok(EPicRegion::RegPerc { x, y, w, h })
        } else {
            let (x, y, w, h) = EPicRegion::read_numbers(&text)?;
            Ok(EPicRegion::Reg { x, y, w, h })
        }
    }
}

} // verus!

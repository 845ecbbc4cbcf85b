//! The decoded pixel buffer and the operations on it.
//!
//! The buffer is `image::DynamicImage`. Verus sees it as an opaque value
//! described by three names: its width, its height, and the RGBA value of
//! each pixel. Every operation of the `image` crate that the pipeline uses
//! is wrapped here once, with a contract over those names that is believed,
//! not proved. Whole files are decoded by the caller, who hands the buffer
//! in.

use vstd::prelude::*;
use crate::iiif::quality::OutputFormat;
use crate::png_rows::PngColor;

verus! {

/// The decoded pixel buffer of the `image` crate, opaque to the verifier.
#[verifier::external_type_specification]
#[verifier::external_body]
pub struct ExDynamicImage(image::DynamicImage);

/// The error type of the `image` crate, opaque to the verifier.
#[verifier::external_type_specification]
#[verifier::external_body]
pub struct ExImageError(image::ImageError);

/// What `GenericImageView::width` returns for the buffer.
pub uninterp spec fn image_width(img: image::DynamicImage) -> u32;

/// What `GenericImageView::height` returns for the buffer.
pub uninterp spec fn image_height(img: image::DynamicImage) -> u32;

/// What `GenericImageView::get_pixel` returns for the buffer at column `x`
/// and row `y`: the red, green, blue and alpha channels.
pub uninterp spec fn image_pixel(img: image::DynamicImage, x: int, y: int) -> (u8, u8, u8, u8);

/// What `ColorType::has_color` returns for the `DynamicImage::color` of the
/// buffer: whether it stores colour channels. A buffer for which it is
/// false stores one luminance channel, with or without alpha.
pub uninterp spec fn image_has_color(img: image::DynamicImage) -> bool;

/// The bytes that `DynamicImage::write_to` writes for the buffer in the
/// given format; none where the encoder refuses the buffer.
pub uninterp spec fn encoded(img: image::DynamicImage, format: OutputFormat) -> Option<Seq<u8>>;

/// The smaller of two numbers.
pub open spec fn lesser(a: int, b: int) -> int {
    if a <= b {
        a
    } else {
        b
    }
}

/// Whether the buffer holds at least one pixel.
pub open spec fn has_pixels(img: image::DynamicImage) -> bool {
    image_width(img) > 0 && image_height(img) > 0
}

/// Whether a buffer of `width` by `height` pixels can be allocated: at up to
/// eight bytes a pixel its size stays below `isize::MAX`.
pub open spec fn area_fits(width: int, height: int) -> bool {
    width * height <= usize::MAX / 16
}

/// Whether the encoder of `format` can take a `width` by `height` picture.
/// The BMP encoder counts the bytes of a row and of the file in 32 bits: at
/// up to four bytes a pixel and three bytes of padding a row, with up to 2048
/// bytes of headers and palette, they must fit. The other encoders refuse
/// what they cannot write.
pub open spec fn encodable(width: u32, height: u32, format: OutputFormat) -> bool {
    format is Bmp ==> 4 * width <= u32::MAX && 4 * width * height + 3 * height + 2048 <= u32::MAX
}

/// Whether `out` is the rectangle of `src` with top left corner `(x, y)` and
/// the given size, the corner and the size held to the bounds of `src`.
pub open spec fn is_crop(
    src: image::DynamicImage,
    out: image::DynamicImage,
    x: u32,
    y: u32,
    width: u32,
    height: u32,
) -> bool {
    let x0 = lesser(x as int, image_width(src) as int);
    let y0 = lesser(y as int, image_height(src) as int);
    &&& image_width(out) == lesser(width as int, image_width(src) - x0)
    &&& image_height(out) == lesser(height as int, image_height(src) - y0)
    &&& forall|i: int, j: int|
        0 <= i < image_width(out) && 0 <= j < image_height(out) ==> #[trigger] image_pixel(
            out,
            i,
            j,
        ) == image_pixel(src, x0 + i, y0 + j)
}

/// Whether `out` is `src` mirrored left to right.
pub open spec fn is_mirror(src: image::DynamicImage, out: image::DynamicImage) -> bool {
    &&& image_width(out) == image_width(src)
    &&& image_height(out) == image_height(src)
    &&& forall|i: int, j: int|
        0 <= i < image_width(out) && 0 <= j < image_height(out) ==> #[trigger] image_pixel(
            out,
            i,
            j,
        ) == image_pixel(src, image_width(src) - 1 - i, j)
}

/// Whether `out` is `src` turned a quarter clockwise.
pub open spec fn is_quarter_turn(src: image::DynamicImage, out: image::DynamicImage) -> bool {
    &&& image_width(out) == image_height(src)
    &&& image_height(out) == image_width(src)
    &&& forall|i: int, j: int|
        0 <= i < image_width(out) && 0 <= j < image_height(out) ==> #[trigger] image_pixel(
            out,
            i,
            j,
        ) == image_pixel(src, j, image_height(src) - 1 - i)
}

/// Whether `out` is `src` turned upside down.
pub open spec fn is_half_turn(src: image::DynamicImage, out: image::DynamicImage) -> bool {
    &&& image_width(out) == image_width(src)
    &&& image_height(out) == image_height(src)
    &&& forall|i: int, j: int|
        0 <= i < image_width(out) && 0 <= j < image_height(out) ==> #[trigger] image_pixel(
            out,
            i,
            j,
        ) == image_pixel(src, image_width(src) - 1 - i, image_height(src) - 1 - j)
}

/// Whether `out` is `src` turned three quarters clockwise.
pub open spec fn is_three_quarter_turn(
    src: image::DynamicImage,
    out: image::DynamicImage,
) -> bool {
    &&& image_width(out) == image_height(src)
    &&& image_height(out) == image_width(src)
    &&& forall|i: int, j: int|
        0 <= i < image_width(out) && 0 <= j < image_height(out) ==> #[trigger] image_pixel(
            out,
            i,
            j,
        ) == image_pixel(src, image_width(src) - 1 - j, i)
}

/// Whether every pixel of `img` is grey: its red, green and blue channels
/// are equal.
pub open spec fn is_grey(img: image::DynamicImage) -> bool {
    forall|i: int, j: int|
        0 <= i < image_width(img) && 0 <= j < image_height(img) ==> {
            let p = #[trigger] image_pixel(img, i, j);
            p.0 == p.1 && p.1 == p.2
        }
}

/// The size that a `src_w` by `src_h` picture takes when it is fitted into
/// a `box_w` by `box_h` box with its aspect ratio kept: one side fills the
/// box, the other is scaled with it, rounded down and at least 1.
pub open spec fn fitted(src_w: u32, src_h: u32, box_w: u32, box_h: u32) -> (int, int)
    recommends
        src_w > 0,
        src_h > 0,
{
    let by_width = box_w as int * src_h as int <= src_w as int * box_h as int;
    let raw = if by_width {
        src_h as int * box_w as int / src_w as int
    } else {
        src_w as int * box_h as int / src_h as int
    };
    let other = if raw < 1 {
        1
    } else {
        raw
    };
    if by_width {
        if other <= u32::MAX {
            (box_w as int, other)
        } else {
            (box_w as int * u32::MAX as int / other, u32::MAX as int)
        }
    } else {
        if other <= u32::MAX {
            (other, box_h as int)
        } else {
            (u32::MAX as int, box_h as int * u32::MAX as int / other)
        }
    }
}

/// The width of the buffer. Trusted: `GenericImageView::width` of the
/// `image` crate.
#[verifier::external_body]
pub(crate) fn width_of(img: &image::DynamicImage) -> (w: u32)
    ensures
        w == image_width(*img),
{
    image::GenericImageView::width(img)
}

/// The height of the buffer. Trusted: `GenericImageView::height` of the
/// `image` crate.
#[verifier::external_body]
pub(crate) fn height_of(img: &image::DynamicImage) -> (h: u32)
    ensures
        h == image_height(*img),
{
    image::GenericImageView::height(img)
}

/// The pixel at column `x`, row `y`. Trusted: `GenericImageView::get_pixel`
/// of the `image` crate, which panics outside the buffer.
#[verifier::external_body]
pub(crate) fn pixel_of(img: &image::DynamicImage, x: u32, y: u32) -> (p: (u8, u8, u8, u8))
    requires
        x < image_width(*img),
        y < image_height(*img),
    ensures
        p == image_pixel(*img, x as int, y as int),
{
    let c = image::GenericImageView::get_pixel(img, x, y);
    (c.0[0], c.0[1], c.0[2], c.0[3])
}

/// Replaces the buffer by a rectangle cut out of it. Trusted:
/// `DynamicImage::crop` of the `image` crate, which first holds the corner
/// to the buffer and the size to what lies right of and below the corner,
/// then copies the pixels of that rectangle.
#[verifier::external_body]
pub(crate) fn crop_image(img: &mut image::DynamicImage, x: u32, y: u32, width: u32, height: u32)
    ensures
        is_crop(*old(img), *final(img), x, y, width, height),
{
    *img = img.crop(x, y, width, height);
}

/// Replaces the buffer by one of exactly `width` by `height` pixels,
/// resampled with the Catmull-Rom filter. Trusted: `DynamicImage::resize_exact`
/// of the `image` crate; it reads pixels of the source, so the source must
/// not be empty, and it allocates the result and one buffer of the source's
/// width and the new height.
#[verifier::external_body]
pub(crate) fn resize_image_exact(img: &mut image::DynamicImage, width: u32, height: u32)
    requires
        has_pixels(*old(img)),
        area_fits(width as int, height as int),
        area_fits(image_width(*old(img)) as int, height as int),
    ensures
        image_width(*final(img)) == width,
        image_height(*final(img)) == height,
{
    *img = img.resize_exact(width, height, image::imageops::FilterType::CatmullRom);
}

/// Replaces the buffer by one fitted into a `width` by `height` box with the
/// aspect ratio kept, resampled with the Catmull-Rom filter. Trusted:
/// `DynamicImage::resize` of the `image` crate, which computes the fitted
/// size as [`fitted`] does and then resizes to exactly that size.
#[verifier::external_body]
pub(crate) fn resize_image_fit(img: &mut image::DynamicImage, width: u32, height: u32)
    requires
        has_pixels(*old(img)),
        area_fits(
            fitted(image_width(*old(img)), image_height(*old(img)), width, height).0,
            fitted(image_width(*old(img)), image_height(*old(img)), width, height).1,
        ),
        area_fits(
            image_width(*old(img)) as int,
            fitted(image_width(*old(img)), image_height(*old(img)), width, height).1,
        ),
    ensures
        image_width(*final(img)) == fitted(
            image_width(*old(img)),
            image_height(*old(img)),
            width,
            height,
        ).0,
        image_height(*final(img)) == fitted(
            image_width(*old(img)),
            image_height(*old(img)),
            width,
            height,
        ).1,
{
    *img = img.resize(width, height, image::imageops::FilterType::CatmullRom);
}

/// Mirrors the buffer left to right. Trusted: `DynamicImage::fliph` of the
/// `image` crate.
#[verifier::external_body]
pub(crate) fn flip_image(img: &mut image::DynamicImage)
    ensures
        is_mirror(*old(img), *final(img)),
{
    *img = img.fliph();
}

/// Turns the buffer a quarter clockwise. Trusted: `DynamicImage::rotate90`
/// of the `image` crate.
#[verifier::external_body]
pub(crate) fn rotate_image_90(img: &mut image::DynamicImage)
    ensures
        is_quarter_turn(*old(img), *final(img)),
{
    *img = img.rotate90();
}

/// Turns the buffer upside down. Trusted: `DynamicImage::rotate180` of the
/// `image` crate.
#[verifier::external_body]
pub(crate) fn rotate_image_180(img: &mut image::DynamicImage)
    ensures
        is_half_turn(*old(img), *final(img)),
{
    *img = img.rotate180();
}

/// Turns the buffer three quarters clockwise. Trusted:
/// `DynamicImage::rotate270` of the `image` crate.
#[verifier::external_body]
pub(crate) fn rotate_image_270(img: &mut image::DynamicImage)
    ensures
        is_three_quarter_turn(*old(img), *final(img)),
{
    *img = img.rotate270();
}

/// Replaces the buffer by its greyscale version. Trusted:
/// `DynamicImage::grayscale` of the `image` crate, which keeps the size and
/// gives a buffer of one luminance channel, of eight or of sixteen bits;
/// of such a buffer red, green and blue read back equal.
#[verifier::external_body]
pub(crate) fn grey_image(img: &mut image::DynamicImage)
    ensures
        image_width(*final(img)) == image_width(*old(img)),
        image_height(*final(img)) == image_height(*old(img)),
        !image_has_color(*final(img)),
        is_grey(*final(img)),
{
    *img = img.grayscale();
}

/// Raises the contrast of the buffer by the factor 1000. Trusted:
/// `DynamicImage::adjust_contrast` of the `image` crate, which keeps the
/// size and the channels that the buffer stores and changes the stored
/// samples. A buffer that stores one luminance channel goes on to do so,
/// and of such a buffer red, green and blue read back equal. Nothing is
/// claimed of the colours of a buffer that stores colour channels.
#[verifier::external_body]
pub(crate) fn harden_image(img: &mut image::DynamicImage)
    ensures
        image_width(*final(img)) == image_width(*old(img)),
        image_height(*final(img)) == image_height(*old(img)),
        image_has_color(*final(img)) == image_has_color(*old(img)),
        !image_has_color(*old(img)) ==> is_grey(*final(img)),
{
    *img = img.adjust_contrast(1000u16.into());
}

/// Encodes the buffer. Trusted: `DynamicImage::write_to` of the `image`
/// crate, writing into a fresh vector; the bytes depend on the buffer and
/// the format alone, and are named [`encoded`]. The BMP encoder multiplies
/// and adds sizes in 32 bits without a test, so a picture that is too large
/// for it is left out; the PNG, JPEG, ICO and TGA encoders answer a size
/// that they cannot write with an error.
#[verifier::external_body]
pub(crate) fn encode_image(img: &image::DynamicImage, format: OutputFormat) -> (r: Result<
    Vec<u8>,
    image::ImageError,
>)
    requires
        encodable(image_width(*img), image_height(*img), format),
    ensures
        match r {
            Ok(bytes) => encoded(*img, format) == Some(bytes@),
            Err(_) => encoded(*img, format) is None,
        },
{
    let target = match format {
        OutputFormat::Jpeg(q) => image::ImageOutputFormat::Jpeg(q),
        OutputFormat::Png => image::ImageOutputFormat::Png,
        OutputFormat::Bmp => image::ImageOutputFormat::Bmp,
        OutputFormat::Ico => image::ImageOutputFormat::Ico,
        OutputFormat::Tga => image::ImageOutputFormat::Tga,
    };
    let mut buf: Vec<u8> = vec![];
    img.write_to(&mut buf, target).map(|_| buf)
}

/// The text of an error of the `image` crate, for logs. Trusted: the
/// `Debug` form of `ImageError`; nothing is claimed of it.
#[verifier::external_body]
pub(crate) fn describe_image_error(e: &image::ImageError) -> (s: String) {
    format!("{:?}", e)
}

/// The red, green, blue and alpha value of the pixel whose samples start at
/// position `at` of `samples`, eight bits a sample: grey is spread over the
/// three colours, and a missing alpha is fully opaque.
pub open spec fn raw_pixel(color: PngColor, samples: Seq<u8>, at: int) -> (u8, u8, u8, u8) {
    match color {
        PngColor::Grayscale => (samples[at], samples[at], samples[at], 255u8),
        PngColor::Indexed => (samples[at], samples[at], samples[at], 255u8),
        PngColor::GrayscaleAlpha => (samples[at], samples[at], samples[at], samples[at + 1]),
        PngColor::Rgb => (samples[at], samples[at + 1], samples[at + 2], 255u8),
        PngColor::Rgba => (samples[at], samples[at + 1], samples[at + 2], samples[at + 3]),
    }
}

/// Whether `img` is the `width` by `height` picture whose pixels lie row by
/// row in `samples`, `channels` bytes a pixel.
pub open spec fn holds_raw(
    img: image::DynamicImage,
    color: PngColor,
    channels: int,
    width: u32,
    height: u32,
    samples: Seq<u8>,
) -> bool {
    &&& image_width(img) == width
    &&& image_height(img) == height
    &&& forall|i: int, j: int|
        0 <= i < width && 0 <= j < height ==> #[trigger] image_pixel(img, i, j) == raw_pixel(
            color,
            samples,
            (j * width + i) * channels,
        )
}

/// A picture of one grey byte a pixel from its samples. Trusted:
/// `ImageBuffer::from_raw` of the `image` crate, which refuses a buffer
/// shorter than the picture, wrapped as `DynamicImage::ImageLuma8`.
#[verifier::external_body]
pub(crate) fn luma8_from_raw(width: u32, height: u32, buf: Vec<u8>) -> (r: Option<
    image::DynamicImage,
>)
    ensures
        match r {
            Some(img) => buf@.len() >= width * height && holds_raw(
                img,
                PngColor::Grayscale,
                1,
                width,
                height,
                buf@,
            ),
            None => buf@.len() < width * height,
        },
{
    image::ImageBuffer::from_raw(width, height, buf).map(image::DynamicImage::ImageLuma8)
}

/// A picture of a grey and an alpha byte a pixel from its samples. Trusted:
/// `ImageBuffer::from_raw` of the `image` crate, wrapped as
/// `DynamicImage::ImageLumaA8`.
#[verifier::external_body]
pub(crate) fn luma_alpha8_from_raw(width: u32, height: u32, buf: Vec<u8>) -> (r: Option<
    image::DynamicImage,
>)
    ensures
        match r {
            Some(img) => buf@.len() >= width * height * 2 && holds_raw(
                img,
                PngColor::GrayscaleAlpha,
                2,
                width,
                height,
                buf@,
            ),
            None => buf@.len() < width * height * 2,
        },
{
    image::ImageBuffer::from_raw(width, height, buf).map(image::DynamicImage::ImageLumaA8)
}

/// A picture of three colour bytes a pixel from its samples. Trusted:
/// `ImageBuffer::from_raw` of the `image` crate, wrapped as
/// `DynamicImage::ImageRgb8`.
#[verifier::external_body]
pub(crate) fn rgb8_from_raw(width: u32, height: u32, buf: Vec<u8>) -> (r: Option<
    image::DynamicImage,
>)
    ensures
        match r {
            Some(img) => buf@.len() >= width * height * 3 && holds_raw(
                img,
                PngColor::Rgb,
                3,
                width,
                height,
                buf@,
            ),
            None => buf@.len() < width * height * 3,
        },
{
    image::ImageBuffer::from_raw(width, height, buf).map(image::DynamicImage::ImageRgb8)
}

/// A picture of three colour bytes and an alpha byte a pixel from its
/// samples. Trusted: `ImageBuffer::from_raw` of the `image` crate, wrapped
/// as `DynamicImage::ImageRgba8`.
#[verifier::external_body]
pub(crate) fn rgba8_from_raw(width: u32, height: u32, buf: Vec<u8>) -> (r: Option<
    image::DynamicImage,
>)
    ensures
        match r {
            Some(img) => buf@.len() >= width * height * 4 && holds_raw(
                img,
                PngColor::Rgba,
                4,
                width,
                height,
                buf@,
            ),
            None => buf@.len() < width * height * 4,
        },
{
    image::ImageBuffer::from_raw(width, height, buf).map(image::DynamicImage::ImageRgba8)
}

/// The pixel at column `x`, row `y` as red, green, blue and alpha; none
/// outside the buffer.
pub fn pixel(img: &image::DynamicImage, x: u32, y: u32) -> (p: Option<(u8, u8, u8, u8)>)
    ensures
        p == (if x < image_width(*img) && y < image_height(*img) {
            Some(image_pixel(*img, x as int, y as int))
        } else {
            None
        }),
{
    if x < width_of(img) && y < height_of(img) {
        Some(pixel_of(img, x, y))
    } else {
        None
    }
}

/// The width and height of the buffer.
pub fn dimensions(img: &image::DynamicImage) -> (d: (u32, u32))
    ensures
        d.0 == image_width(*img),
        d.1 == image_height(*img),
{
    (width_of(img), height_of(img))
}

} // verus!

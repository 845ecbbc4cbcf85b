use image::{DynamicImage, GenericImageView, ImageBuffer, ImageOutputFormat, Luma, LumaA, Rgb, Rgba};
use wif::iiif::img_info::{ImgSection, ImgView, Rect, SourceFormat};
use wif::iiif::region::EPicRegion;
use wif::number::Decimal;
use wif::png_rows::{cut_row, pixel_size, PngColor};
use wif::wif_error::{StatusCode, WifError};

fn whole(n: u64) -> Decimal {
    Decimal { micros: n * 1_000_000 }
}

fn encode(img: &DynamicImage, format: ImageOutputFormat) -> Vec<u8> {
    let mut buf: Vec<u8> = Vec::new();
    img.write_to(&mut buf, format).unwrap();
    buf
}

fn view(format: SourceFormat, width: u32, height: u32) -> ImgView {
    ImgView {
        identifier: "a".to_owned(),
        filepath: "./files/a".to_owned(),
        format,
        dimensions: Rect { width, height },
    }
}

fn format_of(format: SourceFormat) -> image::ImageFormat {
    match format {
        SourceFormat::Png => image::ImageFormat::Png,
        SourceFormat::Jpeg => image::ImageFormat::Jpeg,
        SourceFormat::Bmp => image::ImageFormat::Bmp,
        SourceFormat::Tiff => image::ImageFormat::Tiff,
    }
}

/// The picture of a region as a caller gets it: from the rows of a PNG
/// stream where that works, else from the whole picture, decoded here.
fn cut(region: &EPicRegion, v: &ImgView, bytes: &[u8]) -> Result<DynamicImage, WifError> {
    match region.try_get_from_png(v, bytes) {
        Some(window) => Ok(window),
        None => region.from_file(v, image::load_from_memory_with_format(bytes, format_of(v.format))),
    }
}

fn rgb(width: u32, height: u32) -> DynamicImage {
    DynamicImage::ImageRgb8(ImageBuffer::from_fn(width, height, |x, y| Rgb([x as u8, y as u8, (3 * x + y) as u8])))
}

fn section(x: u32, y: u32, width: u32, height: u32) -> ImgSection {
    ImgSection { x, y, dimensions: Rect { width, height } }
}

#[test]
fn pixel_size_by_colour_and_depth() {
    assert_eq!(pixel_size(PngColor::Grayscale, 8), 1);
    assert_eq!(pixel_size(PngColor::GrayscaleAlpha, 8), 2);
    assert_eq!(pixel_size(PngColor::Rgb, 8), 3);
    assert_eq!(pixel_size(PngColor::Rgba, 8), 4);
    assert_eq!(pixel_size(PngColor::Indexed, 8), 1);
    assert_eq!(pixel_size(PngColor::Rgb, 16), 6);
    assert_eq!(pixel_size(PngColor::Rgba, 16), 8);
    assert_eq!(pixel_size(PngColor::Grayscale, 1), 1);
}

#[test]
fn cut_row_appends_a_part_of_a_row() {
    let row: Vec<u8> = vec![1, 2, 3, 4, 5, 6];
    let mut out: Vec<u8> = vec![9];
    cut_row(&row, 2, 5, &mut out);
    assert_eq!(out, vec![9, 3, 4, 5]);
    cut_row(&row, 6, 6, &mut out);
    assert_eq!(out, vec![9, 3, 4, 5]);
    cut_row(&row, 0, 1, &mut out);
    assert_eq!(out, vec![9, 3, 4, 5, 1]);
}

#[test]
fn window_of_an_rgb_png() {
    let src = rgb(20, 15);
    let bytes = encode(&src, ImageOutputFormat::Png);
    let got = EPicRegion::read_png_section(&bytes, section(3, 2, 5, 4), Rect { width: 20, height: 15 }).unwrap();
    assert_eq!(got, src.crop_imm(3, 2, 5, 4));
}

#[test]
fn window_of_an_rgba_png() {
    let src = DynamicImage::ImageRgba8(ImageBuffer::from_fn(9, 9, |x, y| Rgba([x as u8, y as u8, 1, (x * y) as u8])));
    let bytes = encode(&src, ImageOutputFormat::Png);
    let got = EPicRegion::read_png_section(&bytes, section(8, 0, 1, 9), Rect { width: 9, height: 9 }).unwrap();
    assert_eq!(got, src.crop_imm(8, 0, 1, 9));
}

#[test]
fn window_of_a_grey_png() {
    let src = DynamicImage::ImageLuma8(ImageBuffer::from_fn(9, 7, |x, y| Luma([(x + 10 * y) as u8])));
    let bytes = encode(&src, ImageOutputFormat::Png);
    let got = EPicRegion::read_png_section(&bytes, section(0, 6, 9, 1), Rect { width: 9, height: 7 }).unwrap();
    assert_eq!(got, src.crop_imm(0, 6, 9, 1));
    let src = DynamicImage::ImageLumaA8(ImageBuffer::from_fn(9, 7, |x, y| LumaA([(x + 10 * y) as u8, x as u8])));
    let bytes = encode(&src, ImageOutputFormat::Png);
    let got = EPicRegion::read_png_section(&bytes, section(2, 2, 3, 3), Rect { width: 9, height: 7 }).unwrap();
    assert_eq!(got, src.crop_imm(2, 2, 3, 3));
}

#[test]
fn window_that_does_not_fit_is_refused() {
    let bytes = encode(&rgb(20, 15), ImageOutputFormat::Png);
    let dims = Rect { width: 20, height: 15 };
    assert!(EPicRegion::read_png_section(&bytes, section(18, 0, 3, 1), dims).is_none());
    assert!(EPicRegion::read_png_section(&bytes, section(0, 14, 1, 2), dims).is_none());
    assert!(EPicRegion::read_png_section(&bytes, section(0, 0, 1, 1), Rect { width: 21, height: 15 }).is_none());
    assert!(EPicRegion::read_png_section(b"no png", section(0, 0, 1, 1), dims).is_none());
    assert!(EPicRegion::read_png_section(&bytes[..bytes.len() / 2], section(0, 14, 1, 1), dims).is_none());
}

#[test]
fn from_file_cuts_a_png_like_a_crop() {
    let src = rgb(20, 15);
    let bytes = encode(&src, ImageOutputFormat::Png);
    let v = view(SourceFormat::Png, 20, 15);
    let region = EPicRegion::Reg { x: whole(3), y: whole(2), w: whole(5), h: whole(4) };
    assert_eq!(cut(&region, &v, &bytes).unwrap(), src.crop_imm(3, 2, 5, 4));
    assert_eq!(region.try_get_from_png(&v, &bytes).unwrap(), src.crop_imm(3, 2, 5, 4));
    let region = EPicRegion::RegPerc { x: whole(50), y: whole(0), w: whole(50), h: whole(20) };
    assert_eq!(cut(&region, &v, &bytes).unwrap(), src.crop_imm(10, 0, 10, 3));
    assert_eq!(cut(&EPicRegion::Square, &v, &bytes).unwrap(), src.crop_imm(2, 0, 15, 15));
    assert_eq!(cut(&EPicRegion::Full, &v, &bytes).unwrap(), src);
    let beyond = EPicRegion::Reg { x: whole(18), y: whole(13), w: whole(50), h: whole(50) };
    assert_eq!(cut(&beyond, &v, &bytes).unwrap(), src.crop_imm(18, 13, 2, 2));
}

#[test]
fn from_file_does_not_window_what_it_need_not() {
    let src = rgb(12, 12);
    let bytes = encode(&src, ImageOutputFormat::Png);
    let v = view(SourceFormat::Png, 12, 12);
    assert!(EPicRegion::Full.try_get_from_png(&v, &bytes).is_none());
    assert!(EPicRegion::Square.try_get_from_png(&v, &bytes).is_none());
    let outside = EPicRegion::Reg { x: whole(12), y: whole(0), w: whole(1), h: whole(1) };
    assert!(outside.try_get_from_png(&v, &bytes).is_none());
    assert_eq!(cut(&EPicRegion::Square, &v, &bytes).unwrap(), src);
}

#[test]
fn from_file_decodes_other_formats_and_cuts() {
    let src = rgb(20, 15);
    let bytes = encode(&src, ImageOutputFormat::Bmp);
    let v = view(SourceFormat::Bmp, 20, 15);
    let region = EPicRegion::Reg { x: whole(3), y: whole(2), w: whole(5), h: whole(4) };
    let got = cut(&region, &v, &bytes).unwrap();
    assert_eq!(got.dimensions(), (5, 4));
    assert_eq!(got.get_pixel(0, 0), src.get_pixel(3, 2));
    assert_eq!(got.get_pixel(4, 3), src.get_pixel(7, 5));
}

#[test]
fn from_file_reports_a_region_out_of_bounds() {
    let bytes = encode(&rgb(20, 15), ImageOutputFormat::Png);
    let v = view(SourceFormat::Png, 20, 15);
    let region = EPicRegion::Reg { x: whole(20), y: whole(0), w: whole(1), h: whole(1) };
    let e = cut(&region, &v, &bytes).unwrap_err();
    assert_eq!(e.status, StatusCode::BadRequest);
    assert_eq!(e.message, "Region is out of bounds");
}

#[test]
fn from_file_refuses_a_file_that_is_not_what_the_view_says() {
    let bytes = encode(&rgb(20, 15), ImageOutputFormat::Png);
    let e = cut(&EPicRegion::Full, &view(SourceFormat::Png, 21, 15), &bytes).unwrap_err();
    assert_eq!(e.status, StatusCode::InternalServerError);
    assert_eq!(e.message, "Internal Server Error");
    let e = cut(&EPicRegion::Full, &view(SourceFormat::Jpeg, 20, 15), &bytes).unwrap_err();
    assert_eq!(e.status, StatusCode::InternalServerError);
    let e = cut(&EPicRegion::Square, &view(SourceFormat::Png, 20, 15), b"broken").unwrap_err();
    assert_eq!(e.status, StatusCode::InternalServerError);
}

#[test]
fn from_file_takes_what_the_caller_decoded() {
    let src = rgb(20, 15);
    let v = view(SourceFormat::Tiff, 20, 15);
    let region = EPicRegion::Reg { x: whole(3), y: whole(2), w: whole(5), h: whole(4) };
    assert_eq!(region.from_file(&v, Ok(src.clone())).unwrap(), src.crop_imm(3, 2, 5, 4));
    assert_eq!(EPicRegion::Full.from_file(&v, Ok(src.clone())).unwrap(), src);
    let e = EPicRegion::Full.from_file(&v, Ok(rgb(15, 20))).unwrap_err();
    assert_eq!(e.status, StatusCode::InternalServerError);
    assert_eq!(e.message, "Internal Server Error");
    let failed = image::load_from_memory_with_format(b"no picture", image::ImageFormat::Tiff);
    assert!(failed.is_err());
    let e = EPicRegion::Full.from_file(&v, failed).unwrap_err();
    assert_eq!(e.status, StatusCode::InternalServerError);
    assert_eq!(e.body(), "Internal Server Error");
}

#[test]
fn only_a_png_source_is_cut_out_of_rows() {
    let src = rgb(20, 15);
    let bytes = encode(&src, ImageOutputFormat::Png);
    let region = EPicRegion::Reg { x: whole(3), y: whole(2), w: whole(5), h: whole(4) };
    assert!(region.try_get_from_png(&view(SourceFormat::Png, 20, 15), &bytes).is_some());
    for format in [SourceFormat::Jpeg, SourceFormat::Bmp, SourceFormat::Tiff] {
        assert!(region.try_get_from_png(&view(format, 20, 15), &bytes).is_none());
    }
}

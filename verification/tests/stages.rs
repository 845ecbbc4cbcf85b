use image::{DynamicImage, GenericImageView, ImageBuffer, Rgb, Rgba};
use wif::iiif::quality::{can_encode, mutate_image_quality, EPicQuality, OutputFormat};
use wif::iiif::region::EPicRegion;
use wif::iiif::rotation::{mutate_image_rotation, EPicRotation};
use wif::iiif::size::{check_area, fit_dimensions, mutate_image_size, EPicSize};
use wif::number::Decimal;
use wif::raster::{dimensions, pixel};
use wif::wif_error::StatusCode;

fn dec(micros: u64) -> Decimal {
    Decimal { micros }
}

fn whole(n: u64) -> Decimal {
    Decimal { micros: n * 1_000_000 }
}

/// A picture whose pixel at `(x, y)` is `(x, y, x + y)`.
fn chart(width: u32, height: u32) -> DynamicImage {
    DynamicImage::ImageRgb8(ImageBuffer::from_fn(width, height, |x, y| {
        Rgb([x as u8, y as u8, (x + y) as u8])
    }))
}

fn at(img: &DynamicImage, x: u32, y: u32) -> (u8, u8, u8) {
    let p = img.get_pixel(x, y);
    (p.0[0], p.0[1], p.0[2])
}

#[test]
fn pixel_reads_inside_and_nothing_outside() {
    let img = chart(4, 3);
    assert_eq!(dimensions(&img), (4, 3));
    assert_eq!(pixel(&img, 0, 0), Some((0, 0, 0, 255)));
    assert_eq!(pixel(&img, 3, 2), Some((3, 2, 5, 255)));
    assert_eq!(pixel(&img, 4, 2), None);
    assert_eq!(pixel(&img, 3, 3), None);
}

#[test]
fn region_full_keeps_the_picture() {
    let mut img = chart(8, 6);
    EPicRegion::Full.mutate_image_region(&mut img).unwrap();
    assert_eq!(img, chart(8, 6));
}

#[test]
fn region_square_of_a_wide_picture() {
    let mut img = chart(8, 6);
    EPicRegion::Square.mutate_image_region(&mut img).unwrap();
    assert_eq!(img.dimensions(), (6, 6));
    assert_eq!(at(&img, 0, 0), (1, 0, 1));
    assert_eq!(at(&img, 5, 5), (6, 5, 11));
}

#[test]
fn region_square_of_a_tall_picture() {
    let mut img = chart(5, 10);
    EPicRegion::Square.mutate_image_region(&mut img).unwrap();
    assert_eq!(img.dimensions(), (5, 5));
    assert_eq!(at(&img, 0, 0), (0, 2, 2));
    assert_eq!(at(&img, 4, 4), (4, 6, 10));
}

#[test]
fn region_square_of_a_square_picture() {
    let mut img = chart(7, 7);
    EPicRegion::Square.mutate_image_region(&mut img).unwrap();
    assert_eq!(img, chart(7, 7));
}

#[test]
fn region_pixels_inside() {
    let mut img = chart(8, 6);
    let region = EPicRegion::Reg { x: whole(2), y: whole(1), w: whole(3), h: whole(4) };
    region.mutate_image_region(&mut img).unwrap();
    assert_eq!(img.dimensions(), (3, 4));
    assert_eq!(at(&img, 0, 0), (2, 1, 3));
    assert_eq!(at(&img, 2, 3), (4, 4, 8));
}

#[test]
fn region_pixels_are_rounded() {
    let mut img = chart(8, 6);
    let region = EPicRegion::Reg { x: dec(1_500_000), y: dec(1_499_999), w: dec(2_500_000), h: dec(2_400_000) };
    region.mutate_image_region(&mut img).unwrap();
    assert_eq!(img.dimensions(), (3, 2));
    assert_eq!(at(&img, 0, 0), (2, 1, 3));
}

#[test]
fn region_beyond_the_edge_is_cut_off() {
    let mut img = chart(8, 6);
    let region = EPicRegion::Reg { x: whole(5), y: whole(4), w: whole(100), h: whole(100) };
    region.mutate_image_region(&mut img).unwrap();
    assert_eq!(img.dimensions(), (3, 2));
    assert_eq!(at(&img, 0, 0), (5, 4, 9));
    assert_eq!(at(&img, 2, 1), (7, 5, 12));
}

#[test]
fn region_starting_at_the_last_column() {
    let mut img = chart(8, 6);
    let region = EPicRegion::Reg { x: whole(7), y: whole(0), w: whole(1), h: whole(6) };
    region.mutate_image_region(&mut img).unwrap();
    assert_eq!(img.dimensions(), (1, 6));
    assert_eq!(at(&img, 0, 5), (7, 5, 12));
}

#[test]
fn region_starting_at_the_width_is_refused() {
    let mut img = chart(8, 6);
    let region = EPicRegion::Reg { x: whole(8), y: whole(0), w: whole(1), h: whole(1) };
    let e = region.mutate_image_region(&mut img).unwrap_err();
    assert_eq!(e.status, StatusCode::BadRequest);
    assert_eq!(e.message, "Region is out of bounds");
    assert_eq!(img, chart(8, 6));
    let below = EPicRegion::Reg { x: whole(0), y: whole(6), w: whole(1), h: whole(1) };
    assert_eq!(below.mutate_image_region(&mut img).unwrap_err().message, "Region is out of bounds");
}

#[test]
fn region_that_rounds_to_no_pixel_is_refused() {
    let mut img = chart(8, 6);
    let region = EPicRegion::Reg { x: whole(1), y: whole(1), w: dec(400_000), h: whole(2) };
    let e = region.mutate_image_region(&mut img).unwrap_err();
    assert_eq!(e.status, StatusCode::BadRequest);
    assert_eq!(e.message, "Width and Height are not allowed to be 0.");
    assert_eq!(img, chart(8, 6));
}

#[test]
fn region_percent_is_cut() {
    let mut img = chart(80, 60);
    let region = EPicRegion::RegPerc { x: whole(25), y: whole(50), w: whole(50), h: whole(25) };
    region.mutate_image_region(&mut img).unwrap();
    assert_eq!(img.dimensions(), (40, 15));
    assert_eq!(at(&img, 0, 0), (20, 30, 50));
}

#[test]
fn region_whole_percent_is_the_whole_picture() {
    let mut img = chart(80, 60);
    let region = EPicRegion::RegPerc { x: whole(0), y: whole(0), w: whole(100), h: whole(100) };
    region.mutate_image_region(&mut img).unwrap();
    assert_eq!(img, chart(80, 60));
}

#[test]
fn region_percent_out_of_bounds() {
    let mut img = chart(3, 3);
    let region = EPicRegion::RegPerc { x: dec(99_000_000), y: whole(0), w: whole(10), h: whole(10) };
    let e = region.mutate_image_region(&mut img).unwrap_err();
    assert_eq!(e.message, "Region is out of bounds");
}

#[test]
fn rect_in_bounds_replaces_what_reaches_beyond() {
    assert_eq!(EPicRegion::rect_in_bounds((8, 6), 2, 1, 3, 4), (true, 2, 1, 3, 4));
    assert_eq!(EPicRegion::rect_in_bounds((8, 6), 2, 1, 6, 5), (true, 2, 1, 6, 5));
    assert_eq!(EPicRegion::rect_in_bounds((8, 6), 2, 1, 7, 6), (true, 2, 1, 8, 6));
    assert_eq!(EPicRegion::rect_in_bounds((8, 6), 8, 1, 1, 1), (false, 0, 0, 0, 0));
    assert_eq!(EPicRegion::rect_in_bounds((8, 6), 1, 6, 1, 1), (false, 0, 0, 0, 0));
    assert_eq!(EPicRegion::rect_in_bounds((8, 6), 7, 5, u32::MAX, u32::MAX), (true, 7, 5, 8, 6));
    assert_eq!(
        EPicRegion::rect_in_bounds_perc((800, 600), &whole(0), &whole(0), &whole(50), &whole(50)),
        (true, 0, 0, 400, 300)
    );
}

#[test]
fn fit_dimensions_keeps_the_aspect_ratio() {
    assert_eq!(fit_dimensions(800, 600, 800, 300), (400, 300));
    assert_eq!(fit_dimensions(800, 600, 2000, 1500), (2000, 1500));
    assert_eq!(fit_dimensions(800, 600, 400, 600), (400, 300));
    assert_eq!(fit_dimensions(800, 600, 100, 100), (100, 75));
    assert_eq!(fit_dimensions(1000, 1, 10, 10), (10, 1));
    assert_eq!(fit_dimensions(3, 2, 2, 2), (2, 1));
    assert_eq!(fit_dimensions(1, 4_000_000_000, 2, 4_000_000_000), (1, 4_000_000_000));
    assert_eq!(fit_dimensions(1, 4_000_000_000, 4, 4_294_967_295), (1, 4_294_967_295));
}

#[test]
fn check_area_tells_what_can_be_allocated() {
    assert!(check_area(0, 0));
    assert!(check_area(2000, 1500));
    assert!(!check_area(u32::MAX, u32::MAX));
}

#[test]
fn size_max_keeps_the_picture() {
    let mut img = chart(8, 6);
    mutate_image_size(&EPicSize::Max, &mut img).unwrap();
    assert_eq!(img, chart(8, 6));
}

#[test]
fn size_by_width() {
    let mut img = chart(80, 60);
    mutate_image_size(&EPicSize::Width { w: whole(40), upscale: false }, &mut img).unwrap();
    assert_eq!(img.dimensions(), (40, 30));
}

#[test]
fn size_by_height() {
    let mut img = chart(80, 60);
    mutate_image_size(&EPicSize::Height { h: whole(30), upscale: false }, &mut img).unwrap();
    assert_eq!(img.dimensions(), (40, 30));
}

#[test]
fn size_by_width_beyond_the_picture() {
    let mut img = chart(80, 60);
    let e = mutate_image_size(&EPicSize::Width { w: whole(200), upscale: false }, &mut img).unwrap_err();
    assert_eq!(e.status, StatusCode::BadRequest);
    assert_eq!(e.message, "Size not allowed");
    assert_eq!(img, chart(80, 60));
    mutate_image_size(&EPicSize::Width { w: whole(200), upscale: true }, &mut img).unwrap();
    assert_eq!(img.dimensions(), (200, 150));
}

#[test]
fn size_by_height_beyond_the_picture() {
    let mut img = chart(80, 60);
    let e = mutate_image_size(&EPicSize::Height { h: whole(61), upscale: false }, &mut img).unwrap_err();
    assert_eq!(e.message, "Size not allowed");
    mutate_image_size(&EPicSize::Height { h: whole(90), upscale: true }, &mut img).unwrap();
    assert_eq!(img.dimensions(), (120, 90));
}

#[test]
fn size_by_percent() {
    let mut img = chart(80, 60);
    mutate_image_size(&EPicSize::Perc { n: whole(25), upscale: false }, &mut img).unwrap();
    assert_eq!(img.dimensions(), (20, 15));
    let mut img = chart(80, 60);
    let e = mutate_image_size(&EPicSize::Perc { n: whole(100), upscale: false }, &mut img).unwrap_err();
    assert_eq!(e.message, "Size not allowed");
    mutate_image_size(&EPicSize::Perc { n: whole(150), upscale: true }, &mut img).unwrap();
    assert_eq!(img.dimensions(), (120, 90));
}

#[test]
fn size_by_width_and_height() {
    let exact = EPicSize::WidthHeight { w: whole(40), h: whole(10), forced: false, upscale: false };
    let mut img = chart(80, 60);
    mutate_image_size(&exact, &mut img).unwrap();
    assert_eq!(img.dimensions(), (40, 10));
    let fitted = EPicSize::WidthHeight { w: whole(40), h: whole(10), forced: true, upscale: false };
    let mut img = chart(80, 60);
    mutate_image_size(&fitted, &mut img).unwrap();
    assert_eq!(img.dimensions(), (13, 10));
}

#[test]
fn size_by_width_and_height_beyond_the_picture() {
    let mut img = chart(80, 60);
    let wide = EPicSize::WidthHeight { w: dec(80_000_001), h: whole(10), forced: false, upscale: false };
    let e = mutate_image_size(&wide, &mut img).unwrap_err();
    assert_eq!(e.status, StatusCode::BadRequest);
    assert_eq!(e.message, "This size is not allowed");
    let tall = EPicSize::WidthHeight { w: whole(80), h: whole(61), forced: true, upscale: false };
    assert_eq!(mutate_image_size(&tall, &mut img).unwrap_err().message, "This size is not allowed");
    let up = EPicSize::WidthHeight { w: whole(100), h: whole(61), forced: false, upscale: true };
    mutate_image_size(&up, &mut img).unwrap();
    assert_eq!(img.dimensions(), (100, 61));
}

#[test]
fn size_without_pixels_is_refused() {
    let mut img = chart(80, 60);
    let e = mutate_image_size(&EPicSize::Width { w: dec(400_000), upscale: false }, &mut img).unwrap_err();
    assert_eq!(e.message, "Size not allowed");
    let e = mutate_image_size(&EPicSize::Perc { n: dec(100_000), upscale: false }, &mut img).unwrap_err();
    assert_eq!(e.message, "Size not allowed");
    assert_eq!(img, chart(80, 60));
}

#[test]
fn size_too_large_to_allocate_is_refused() {
    let mut img = chart(80, 60);
    let huge = EPicSize::WidthHeight { w: whole(4_294_967_295), h: whole(4_294_967_295), forced: false, upscale: true };
    let e = mutate_image_size(&huge, &mut img).unwrap_err();
    assert_eq!(e.status, StatusCode::BadRequest);
    assert_eq!(e.message, "Size not allowed");
    assert_eq!(img, chart(80, 60));
}

#[test]
fn rotation_by_quarters() {
    let src = chart(4, 3);
    for (angle, size) in [(0u32, (4u32, 3u32)), (90, (3, 4)), (180, (4, 3)), (270, (3, 4)), (360, (4, 3))] {
        let mut img = src.clone();
        mutate_image_rotation(&EPicRotation { rotation: angle, mirrored: false }, &mut img).unwrap();
        assert_eq!(img.dimensions(), size);
    }
    let mut img = src.clone();
    mutate_image_rotation(&EPicRotation { rotation: 90, mirrored: false }, &mut img).unwrap();
    assert_eq!(at(&img, 0, 0), at(&src, 0, 2));
    assert_eq!(at(&img, 2, 0), at(&src, 0, 0));
    assert_eq!(at(&img, 2, 3), at(&src, 3, 0));
    let mut img = src.clone();
    mutate_image_rotation(&EPicRotation { rotation: 180, mirrored: false }, &mut img).unwrap();
    assert_eq!(at(&img, 0, 0), at(&src, 3, 2));
    assert_eq!(at(&img, 1, 2), at(&src, 2, 0));
    let mut img = src.clone();
    mutate_image_rotation(&EPicRotation { rotation: 270, mirrored: false }, &mut img).unwrap();
    assert_eq!(at(&img, 0, 0), at(&src, 3, 0));
    assert_eq!(at(&img, 2, 3), at(&src, 0, 2));
}

#[test]
fn rotation_identity_keeps_the_picture() {
    for angle in [0u32, 360] {
        let mut img = chart(4, 3);
        mutate_image_rotation(&EPicRotation { rotation: angle, mirrored: false }, &mut img).unwrap();
        assert_eq!(img, chart(4, 3));
    }
}

#[test]
fn rotation_mirrors_before_it_turns() {
    let src = chart(4, 3);
    let mut img = src.clone();
    mutate_image_rotation(&EPicRotation { rotation: 0, mirrored: true }, &mut img).unwrap();
    assert_eq!(img.dimensions(), (4, 3));
    assert_eq!(at(&img, 0, 0), at(&src, 3, 0));
    assert_eq!(at(&img, 3, 2), at(&src, 0, 2));
    let mut img = src.clone();
    mutate_image_rotation(&EPicRotation { rotation: 90, mirrored: true }, &mut img).unwrap();
    assert_eq!(img.dimensions(), (3, 4));
    assert_eq!(at(&img, 0, 0), at(&src, 3, 2));
    assert_eq!(at(&img, 2, 3), at(&src, 0, 0));
}

#[test]
fn rotation_by_another_angle_is_refused() {
    for angle in [1u32, 45, 89, 91, 361, 450, u32::MAX] {
        let mut img = chart(4, 3);
        let e = mutate_image_rotation(&EPicRotation { rotation: angle, mirrored: true }, &mut img).unwrap_err();
        assert_eq!(e.status, StatusCode::BadRequest);
        assert_eq!(e.message, "Rotation must be 0, 90, 180, 270 or 360");
        assert_eq!(img, chart(4, 3));
    }
}

#[test]
fn quality_color_encodes_the_picture_as_it_is() {
    let mut img = chart(9, 7);
    let mut quality = EPicQuality::Color(OutputFormat::Png);
    let (bytes, format) = mutate_image_quality(&mut quality, &mut img).unwrap();
    assert_eq!(format, OutputFormat::Png);
    assert_eq!(quality, EPicQuality::Color(OutputFormat::Png));
    assert_eq!(img, chart(9, 7));
    let back = image::load_from_memory_with_format(&bytes, image::ImageFormat::Png).unwrap();
    assert_eq!(back, chart(9, 7));
}

#[test]
fn quality_gray_makes_the_colours_equal() {
    let mut img = chart(9, 7);
    let mut quality = EPicQuality::Gray(OutputFormat::Bmp);
    let (bytes, format) = mutate_image_quality(&mut quality, &mut img).unwrap();
    assert_eq!(format, OutputFormat::Bmp);
    assert_eq!(img.dimensions(), (9, 7));
    for y in 0..7 {
        for x in 0..9 {
            let p = img.get_pixel(x, y);
            assert!(p.0[0] == p.0[1] && p.0[1] == p.0[2]);
        }
    }
    assert_ne!(img, chart(9, 7));
    let back = image::load_from_memory_with_format(&bytes, image::ImageFormat::Bmp).unwrap();
    assert_eq!(back.dimensions(), (9, 7));
}

#[test]
fn quality_bitonal_pushes_light_and_dark_apart() {
    let mut img = DynamicImage::ImageRgb8(ImageBuffer::from_fn(2, 1, |x, _| {
        if x == 0 { Rgb([10, 20, 30]) } else { Rgb([240, 230, 250]) }
    }));
    let mut quality = EPicQuality::Bitonal(OutputFormat::Png);
    mutate_image_quality(&mut quality, &mut img).unwrap();
    assert_eq!(img.get_pixel(0, 0), Rgba([0, 0, 0, 255]));
    assert_eq!(img.get_pixel(1, 0), Rgba([255, 255, 255, 255]));
}

#[test]
fn quality_encodes_in_every_format() {
    for format in [OutputFormat::Jpeg(80), OutputFormat::Png, OutputFormat::Bmp, OutputFormat::Ico, OutputFormat::Tga] {
        let mut img = chart(16, 16);
        let mut quality = EPicQuality::Default(format);
        let (bytes, f) = mutate_image_quality(&mut quality, &mut img).unwrap();
        assert_eq!(f, format);
        assert!(!bytes.is_empty());
    }
}

#[test]
fn quality_that_cannot_be_encoded_is_an_internal_error() {
    let mut img = chart(300, 300);
    let mut quality = EPicQuality::Color(OutputFormat::Ico);
    let e = mutate_image_quality(&mut quality, &mut img).unwrap_err();
    assert_eq!(e.status, StatusCode::InternalServerError);
    assert!(e.message.starts_with("Could not write DynamicImage to buffer --- "));
    assert_eq!(e.body(), "Internal Server Error");
}

#[test]
fn formats_have_their_content_types() {
    assert_eq!(OutputFormat::Jpeg(1).mime(), "image/jpeg");
    assert_eq!(OutputFormat::Png.mime(), "image/png");
    assert_eq!(OutputFormat::Bmp.mime(), "image/bmp");
    assert_eq!(OutputFormat::Ico.mime(), "image/ico");
    assert_eq!(OutputFormat::Tga.mime(), "image/x-targa");
}

#[test]
fn a_picture_without_pixels_is_not_scaled() {
    for (w, h) in [(0u32, 0u32), (0, 5), (5, 0)] {
        let mut img = DynamicImage::new_rgb8(w, h);
        mutate_image_size(&EPicSize::Max, &mut img).unwrap();
        assert_eq!(dimensions(&img), (w, h));
        let sizes = [
            EPicSize::Width { w: whole(4), upscale: true },
            EPicSize::Height { h: whole(4), upscale: true },
            EPicSize::Perc { n: whole(50), upscale: false },
            EPicSize::WidthHeight { w: whole(4), h: whole(4), forced: false, upscale: true },
            EPicSize::WidthHeight { w: whole(4), h: whole(4), forced: true, upscale: true },
        ];
        for size in sizes {
            let e = mutate_image_size(&size, &mut img).unwrap_err();
            assert_eq!(e.status, StatusCode::BadRequest);
            assert_eq!(e.message, "Size not allowed");
            assert_eq!(dimensions(&img), (w, h));
        }
    }
}

#[test]
fn an_upscaled_width_or_height_is_met_exactly() {
    let mut img = chart(800, 600);
    mutate_image_size(&EPicSize::Width { w: whole(2003), upscale: true }, &mut img).unwrap();
    assert_eq!(img.dimensions(), (2003, 1502));
    let mut img = chart(800, 600);
    mutate_image_size(&EPicSize::Height { h: whole(1502), upscale: true }, &mut img).unwrap();
    assert_eq!(img.dimensions(), (2003, 1502));
    let mut img = chart(80, 60);
    mutate_image_size(&EPicSize::Width { w: whole(81), upscale: true }, &mut img).unwrap();
    assert_eq!(img.dimensions(), (81, 61));
    let mut img = chart(80, 60);
    mutate_image_size(&EPicSize::Width { w: whole(79), upscale: true }, &mut img).unwrap();
    assert_eq!(img.dimensions(), (79, 59));
}

#[test]
fn region_square_of_a_square_picture_is_the_picture() {
    let mut img = DynamicImage::ImageRgba8(ImageBuffer::from_fn(9, 9, |x, y| Rgba([x as u8, y as u8, 1, 200])));
    let before = img.clone();
    EPicRegion::Square.mutate_image_region(&mut img).unwrap();
    assert_eq!(img, before);
}

#[test]
fn pictures_too_large_for_a_bitmap_are_told_apart() {
    assert!(can_encode(0, 0, OutputFormat::Bmp));
    assert!(can_encode(800, 600, OutputFormat::Bmp));
    assert!(can_encode(32_767, 32_767, OutputFormat::Bmp));
    assert!(can_encode(1_073_741_311, 1, OutputFormat::Bmp));
    assert!(!can_encode(1_073_741_312, 1, OutputFormat::Bmp));
    assert!(!can_encode(1_073_741_824, 0, OutputFormat::Bmp));
    assert!(can_encode(1_073_741_823, 0, OutputFormat::Bmp));
    assert!(!can_encode(40_000, 40_000, OutputFormat::Bmp));
    assert!(!can_encode(u32::MAX, u32::MAX, OutputFormat::Bmp));
    for format in [OutputFormat::Png, OutputFormat::Jpeg(80), OutputFormat::Ico, OutputFormat::Tga] {
        assert!(can_encode(u32::MAX, u32::MAX, format));
        assert!(can_encode(0, 0, format));
    }
}

#[test]
fn a_picture_too_large_for_a_bitmap_is_an_internal_error() {
    let mut img = DynamicImage::new_rgb8(1_073_741_824, 0);
    let mut quality = EPicQuality::Color(OutputFormat::Bmp);
    let e = mutate_image_quality(&mut quality, &mut img).unwrap_err();
    assert_eq!(e.status, StatusCode::InternalServerError);
    assert_eq!(e.message, "Picture too large for the output format");
    assert_eq!(e.body(), "Internal Server Error");
}

#[test]
fn bitonal_of_a_deep_picture_is_grey() {
    let deep = ImageBuffer::from_fn(4, 3, |x, _| image::Rgb([32768u16, 33000 + x as u16, 32768]));
    let mut img = DynamicImage::ImageRgb16(deep);
    let mut quality = EPicQuality::Bitonal(OutputFormat::Png);
    mutate_image_quality(&mut quality, &mut img).unwrap();
    for y in 0..3 {
        for x in 0..4 {
            let p = pixel(&img, x, y).unwrap();
            assert_eq!(p.0, p.1);
            assert_eq!(p.1, p.2);
        }
    }
}

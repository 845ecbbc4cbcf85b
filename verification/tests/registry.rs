use image::{DynamicImage, ImageBuffer, ImageOutputFormat, Luma, Rgb};
use wif::headers::{read_bmp_size, read_tiff_size, read_u16, read_u32};
use wif::config::Config;
use wif::iiif::img_info::{find_first, is_file_name, ImgSection, ImgView, Rect, SourceFormat};
use wif::service::info_json;
use wif::wif_error::StatusCode;

fn picture(width: u32, height: u32) -> DynamicImage {
    DynamicImage::ImageRgb8(ImageBuffer::from_fn(width, height, |x, y| Rgb([x as u8, y as u8, 7])))
}

fn encode(img: &DynamicImage, format: ImageOutputFormat) -> Vec<u8> {
    let mut buf: Vec<u8> = Vec::new();
    img.write_to(&mut buf, format).unwrap();
    buf
}

fn probe(at: &[usize]) -> Vec<bool> {
    let mut p = vec![false; 10];
    for i in at {
        p[*i] = true;
    }
    p
}

/// A TIFF file of one directory with the given entries, in either byte order.
fn tiff(big: bool, entries: &[(u16, u16, u32)]) -> Vec<u8> {
    let w16 = |v: u16| if big { v.to_be_bytes() } else { v.to_le_bytes() };
    let w32 = |v: u32| if big { v.to_be_bytes() } else { v.to_le_bytes() };
    let mut b: Vec<u8> = Vec::new();
    b.extend_from_slice(if big { b"MM" } else { b"II" });
    b.extend_from_slice(&w16(42));
    b.extend_from_slice(&w32(8));
    b.extend_from_slice(&w16(entries.len() as u16));
    for (tag, kind, value) in entries {
        b.extend_from_slice(&w16(*tag));
        b.extend_from_slice(&w16(*kind));
        b.extend_from_slice(&w32(1));
        if *kind == 3 {
            b.extend_from_slice(&w16(*value as u16));
            b.extend_from_slice(&[0, 0]);
        } else {
            b.extend_from_slice(&w32(*value));
        }
    }
    b.extend_from_slice(&w32(0));
    b
}

#[test]
fn section_reports_its_size() {
    let s = ImgSection { x: 1, y: 2, dimensions: Rect { width: 30, height: 40 } };
    assert_eq!(s.width(), 30);
    assert_eq!(s.height(), 40);
}

#[test]
fn candidates_come_in_the_search_order() {
    let list = ImgView::candidates("./files", "page 1");
    let paths: Vec<&str> = list.iter().map(|c| c.path.as_str()).collect();
    assert_eq!(
        paths,
        vec![
            "./files/page 1.png",
            "./files/page 1.PNG",
            "./files/page 1.tif",
            "./files/page 1.TIF",
            "./files/page 1.tiff",
            "./files/page 1.TIFF",
            "./files/page 1.jpg",
            "./files/page 1.JPG",
            "./files/page 1.bmp",
            "./files/page 1.BMP",
        ]
    );
    let formats: Vec<SourceFormat> = list.iter().map(|c| c.format).collect();
    assert_eq!(
        formats,
        vec![
            SourceFormat::Png,
            SourceFormat::Png,
            SourceFormat::Tiff,
            SourceFormat::Tiff,
            SourceFormat::Tiff,
            SourceFormat::Tiff,
            SourceFormat::Jpeg,
            SourceFormat::Jpeg,
            SourceFormat::Bmp,
            SourceFormat::Bmp,
        ]
    );
}

#[test]
fn find_first_finds_the_first() {
    assert_eq!(find_first(&vec![]), None);
    assert_eq!(find_first(&vec![false, false]), None);
    assert_eq!(find_first(&vec![true]), Some(0));
    assert_eq!(find_first(&vec![false, true, true]), Some(1));
}

#[test]
fn locate_lets_a_png_shadow_a_tiff() {
    let found = ImgView::locate("/srv", "a", &probe(&[0, 2, 6])).unwrap();
    assert_eq!(found.path, "/srv/a.png");
    assert_eq!(found.format, SourceFormat::Png);
    let found = ImgView::locate("/srv", "a", &probe(&[3, 9])).unwrap();
    assert_eq!(found.path, "/srv/a.TIF");
    assert_eq!(found.format, SourceFormat::Tiff);
    let found = ImgView::locate("/srv", "a", &probe(&[1, 0])).unwrap();
    assert_eq!(found.path, "/srv/a.png");
}

#[test]
fn locate_finds_nothing_without_a_file() {
    assert!(ImgView::locate("/srv", "a", &probe(&[])).is_none());
    assert!(ImgView::locate("/srv", "a", &vec![]).is_none());
    let mut long = vec![false; 12];
    long[11] = true;
    assert!(ImgView::locate("/srv", "a", &long).is_none());
}

#[test]
fn dimensions_of_a_png() {
    let bytes = encode(&picture(37, 21), ImageOutputFormat::Png);
    assert_eq!(ImgView::get_dimensions(&bytes, &SourceFormat::Png).unwrap(), Rect { width: 37, height: 21 });
    assert_eq!(
        ImgView::get_dimensions(&bytes[..64], &SourceFormat::Png).unwrap(),
        Rect { width: 37, height: 21 }
    );
}

#[test]
fn dimensions_of_a_jpeg() {
    let bytes = encode(&picture(37, 21), ImageOutputFormat::Jpeg(80));
    assert_eq!(ImgView::get_dimensions(&bytes, &SourceFormat::Jpeg).unwrap(), Rect { width: 37, height: 21 });
}

#[test]
fn dimensions_of_a_bmp() {
    let bytes = encode(&picture(37, 21), ImageOutputFormat::Bmp);
    assert_eq!(ImgView::get_dimensions(&bytes, &SourceFormat::Bmp).unwrap(), Rect { width: 37, height: 21 });
    assert_eq!(read_bmp_size(&bytes), Some((37, 21)));
}

#[test]
fn dimensions_of_a_tiff() {
    let mut bytes: Vec<u8> = Vec::new();
    let img = DynamicImage::ImageLuma8(ImageBuffer::from_fn(37, 21, |x, _| Luma([x as u8])));
    img.write_to(&mut std::io::Cursor::new(&mut bytes), image::ImageFormat::Tiff).unwrap_or(());
    if !bytes.is_empty() {
        assert_eq!(ImgView::get_dimensions(&bytes, &SourceFormat::Tiff).unwrap(), Rect { width: 37, height: 21 });
    }
    let file = tiff(false, &[(254, 4, 0), (256, 3, 640), (257, 4, 480)]);
    assert_eq!(ImgView::get_dimensions(&file, &SourceFormat::Tiff).unwrap(), Rect { width: 640, height: 480 });
}

#[test]
fn bmp_headers() {
    let mut b = vec![0u8; 26];
    b[0] = 0x42;
    b[1] = 0x4D;
    b[14] = 40;
    b[18..22].copy_from_slice(&800u32.to_le_bytes());
    b[22..26].copy_from_slice(&600u32.to_le_bytes());
    assert_eq!(read_bmp_size(&b), Some((800, 600)));
    b[22..26].copy_from_slice(&(-600i32).to_le_bytes());
    assert_eq!(read_bmp_size(&b), Some((800, 600)));
    b[18..22].copy_from_slice(&(-1i32).to_le_bytes());
    assert_eq!(read_bmp_size(&b), None);
    b[14] = 12;
    b[18..20].copy_from_slice(&300u16.to_le_bytes());
    b[20..22].copy_from_slice(&200u16.to_le_bytes());
    assert_eq!(read_bmp_size(&b), Some((300, 200)));
    b[14] = 13;
    assert_eq!(read_bmp_size(&b), None);
    b[14] = 40;
    b[0] = 0x43;
    assert_eq!(read_bmp_size(&b), None);
    assert_eq!(read_bmp_size(&b[..25]), None);
    assert_eq!(read_bmp_size(&[]), None);
}

#[test]
fn tiff_headers() {
    assert_eq!(read_tiff_size(&tiff(false, &[(256, 3, 640), (257, 3, 480)])), Some((640, 480)));
    assert_eq!(read_tiff_size(&tiff(true, &[(256, 4, 70_000), (257, 3, 480)])), Some((70_000, 480)));
    assert_eq!(read_tiff_size(&tiff(true, &[(257, 3, 480), (256, 3, 640)])), Some((640, 480)));
    assert_eq!(read_tiff_size(&tiff(false, &[(256, 3, 640)])), None);
    assert_eq!(read_tiff_size(&tiff(false, &[(256, 5, 640), (257, 3, 480)])), None);
    assert_eq!(read_tiff_size(&tiff(false, &[])), None);
    let mut cut = tiff(false, &[(256, 3, 640), (257, 3, 480)]);
    cut.truncate(8 + 2 + 12 + 6);
    assert_eq!(read_tiff_size(&cut), None);
    let mut wrong = tiff(false, &[(256, 3, 640), (257, 3, 480)]);
    wrong[2] = 43;
    assert_eq!(read_tiff_size(&wrong), None);
    let mut mixed = tiff(false, &[(256, 3, 640), (257, 3, 480)]);
    mixed[1] = 0x4D;
    assert_eq!(read_tiff_size(&mixed), None);
    let mut far = tiff(false, &[(256, 3, 640), (257, 3, 480)]);
    far[4..8].copy_from_slice(&4_000_000_000u32.to_le_bytes());
    assert_eq!(read_tiff_size(&far), None);
    assert_eq!(read_tiff_size(&[0x49, 0x49, 42]), None);
}

#[test]
fn numbers_are_read_in_both_byte_orders() {
    let b = [0x12u8, 0x34, 0x56, 0x78];
    assert_eq!(read_u16(&b, 0, true), 0x1234);
    assert_eq!(read_u16(&b, 0, false), 0x3412);
    assert_eq!(read_u16(&b, 2, true), 0x5678);
    assert_eq!(read_u32(&b, 0, true), 0x12345678);
    assert_eq!(read_u32(&b, 0, false), 0x78563412);
}

#[test]
fn dimensions_of_what_is_no_picture() {
    for format in [SourceFormat::Png, SourceFormat::Jpeg, SourceFormat::Bmp, SourceFormat::Tiff] {
        let e = ImgView::get_dimensions(b"neither this nor that", &format).unwrap_err();
        assert_eq!(e.status, StatusCode::InternalServerError);
        assert_eq!(e.message, "Internal Server Error");
    }
    let png = encode(&picture(3, 3), ImageOutputFormat::Png);
    assert!(ImgView::get_dimensions(&png, &SourceFormat::Jpeg).is_err());
}

#[test]
fn rect_of_refuses_a_size_without_pixels() {
    assert_eq!(ImgView::rect_of(Some((3, 4))).unwrap(), Rect { width: 3, height: 4 });
    assert_eq!(ImgView::rect_of(Some((0, 4))).unwrap_err().status, StatusCode::InternalServerError);
    assert_eq!(ImgView::rect_of(Some((3, 0))).unwrap_err().message, "Internal Server Error");
    assert_eq!(ImgView::rect_of(None).unwrap_err().status, StatusCode::InternalServerError);
}

#[test]
fn view_for_an_identifier() {
    let bytes = encode(&picture(800, 600), ImageOutputFormat::Jpeg(80));
    let view = ImgView::for_identifier("test", "./files", &probe(&[6]), &bytes).unwrap();
    assert_eq!(view.identifier, "test");
    assert_eq!(view.filepath, "./files/test.jpg");
    assert_eq!(view.format, SourceFormat::Jpeg);
    assert_eq!(view.dimensions, Rect { width: 800, height: 600 });
    assert_eq!(view.width(), 800);
    assert_eq!(view.height(), 600);
}

#[test]
fn view_for_an_identifier_with_blanks() {
    let bytes = encode(&picture(5, 4), ImageOutputFormat::Png);
    let view = ImgView::for_identifier("my picture", "/data", &probe(&[1]), &bytes).unwrap();
    assert_eq!(view.identifier, "my picture");
    assert_eq!(view.filepath, "/data/my picture.PNG");
    assert_eq!(view.dimensions, Rect { width: 5, height: 4 });
}

#[test]
fn view_for_a_missing_identifier() {
    let e = ImgView::for_identifier("missing", "./files", &probe(&[]), &[]).unwrap_err();
    assert_eq!(e.status, StatusCode::NotFound);
    assert_eq!(e.status.code(), 404);
    assert_eq!(e.message, "missing not found");
    assert!(e.body().contains("missing"));
}

#[test]
fn view_for_a_broken_file() {
    let e = ImgView::for_identifier("test", "./files", &probe(&[0]), b"broken").unwrap_err();
    assert_eq!(e.status, StatusCode::InternalServerError);
    assert_eq!(e.status.code(), 500);
    assert_eq!(e.body(), "Internal Server Error");
}

#[test]
fn descriptor_states_the_size_of_the_header() {
    let config = Config::default();
    let png = encode(&picture(37, 21), ImageOutputFormat::Png);
    let text = info_json("leaf", &probe(&[0]), &png, &config).unwrap();
    let doc: serde_json::Value = serde_json::from_str(&text).unwrap();
    assert_eq!(doc["width"].as_u64(), Some(37));
    assert_eq!(doc["height"].as_u64(), Some(21));
    assert_eq!(doc["maxArea"].as_u64(), Some(config.max_area));
    let id = format!("{}/iiif/leaf", config.base_address);
    assert_eq!(doc["id"].as_str(), Some(id.as_str()));

    let bmp = encode(&picture(5, 9), ImageOutputFormat::Bmp);
    let text = info_json("leaf", &probe(&[8, 9]), &bmp, &config).unwrap();
    let doc: serde_json::Value = serde_json::from_str(&text).unwrap();
    assert_eq!(doc["width"].as_u64(), Some(5));
    assert_eq!(doc["height"].as_u64(), Some(9));

    let jpeg = encode(&picture(64, 48), ImageOutputFormat::Jpeg(80));
    let text = info_json("leaf", &probe(&[7]), &jpeg, &config).unwrap();
    let doc: serde_json::Value = serde_json::from_str(&text).unwrap();
    assert_eq!(doc["width"].as_u64(), Some(64));
    assert_eq!(doc["height"].as_u64(), Some(48));
}

#[test]
fn descriptor_of_a_missing_or_broken_picture() {
    let config = Config::default();
    let e = info_json("leaf", &probe(&[]), &[], &config).unwrap_err();
    assert_eq!(e.status, StatusCode::NotFound);
    assert_eq!(e.message, "leaf not found");
    assert_eq!(e.body(), "leaf not found");

    let e = info_json("leaf", &probe(&[0]), b"no picture", &config).unwrap_err();
    assert_eq!(e.status, StatusCode::InternalServerError);
    assert_eq!(e.body(), "Internal Server Error");

    let png = encode(&picture(3, 3), ImageOutputFormat::Png);
    let e = info_json("leaf", &probe(&[6]), &png, &config).unwrap_err();
    assert_eq!(e.status, StatusCode::InternalServerError);
}

#[test]
fn identifiers_with_a_path_separator_name_no_file() {
    assert!(is_file_name("leaf"));
    assert!(is_file_name("my picture"));
    assert!(is_file_name(".."));
    assert!(is_file_name(""));
    assert!(!is_file_name("../leaf"));
    assert!(!is_file_name("a/b"));
    assert!(!is_file_name("a\\b"));
    assert!(!is_file_name("/"));

    let png = encode(&picture(3, 3), ImageOutputFormat::Png);
    for identifier in ["../leaf", "a/b", "a\\b", "/etc/passwd"] {
        assert!(ImgView::candidates("./files", identifier).is_empty());
        assert!(ImgView::locate("./files", identifier, &probe(&[0])).is_none());
        let e = ImgView::for_identifier(identifier, "./files", &probe(&[0]), &png).unwrap_err();
        assert_eq!(e.status, StatusCode::NotFound);
        assert_eq!(e.message, format!("{} not found", identifier));
        let e = info_json(identifier, &probe(&[0]), &png, &Config::default()).unwrap_err();
        assert_eq!(e.status, StatusCode::NotFound);
    }
    assert_eq!(ImgView::candidates("./files", "leaf").len(), 10);
}

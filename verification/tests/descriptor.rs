use image::GenericImageView;
use wif::config::{address_as_str, base_address, image_path, ip, jpg_quality, max_area, port, Config};
use wif::iiif::img_container::{path_format, ImgContainer, ImgInfo};
use wif::iiif::img_info::{ImgView, Rect, SourceFormat};
use wif::iiif::info_json::IIIFInfo;
use wif::iiif::parsing_error::ErrorReturnType;
use wif::iiif::quality::OutputFormat;
use wif::responder_wrapper::ResponderWrapper;
use wif::text::{chars_of, decimal_string, split_chars, string_of, to_lower};
use wif::wif_error::{StatusCode, WifError};

fn view(identifier: &str, width: u32, height: u32) -> ImgView {
    ImgView {
        identifier: identifier.to_owned(),
        filepath: "./files/x.png".to_owned(),
        format: SourceFormat::Png,
        dimensions: Rect { width, height },
    }
}

fn config() -> Config {
    Config {
        ip: (192, 168, 0, 7),
        port: 8443,
        ssl_enabled: true,
        ssl_key: "/etc/key.pem".to_owned(),
        ssl_cert: "/etc/cert.pem".to_owned(),
        image_path: "/srv/pictures".to_owned(),
        jpg_quality: 75,
        base_address: "https://example.org".to_owned(),
        max_area: 1_000_000,
    }
}

#[test]
fn descriptor_text() {
    let text = IIIFInfo::for_img(&view("test", 800, 600), &config()).unwrap();
    assert_eq!(
        text,
        "{\"@context\":\"http://iiif.io/api/image/3/context.json\",\"id\":\"https://example.org/iiif/test\",\"type\":\"ImageService3\",\"protocol\":\"http://iiif.io/api/image\",\"profile\":\"level1\",\"width\":800,\"height\":600,\"maxArea\":1000000,\"preferredFormats\":[\"tga\", \"png\", \"jpeg\", \"ico\", \"bmp\"],\"extraFeatures\":[\"baseUriRedirect\", \"rotationBy90s\", \"cors\", \"mirroring\", \"regionByPct\", \"regionByPx\", \"regionSquare\", \"sizeByH\", \"sizeByPct\", \"sizeByW\", \"sizeUpscaling\"],\"extraQualities\":[\"default\", \"bitonal\", \"gray\"]}"
    );
}

#[test]
fn descriptor_is_json_with_the_size_of_the_view() {
    for (w, h) in [(1u32, 1u32), (800, 600), (u32::MAX, 7)] {
        let text = IIIFInfo::for_img(&view("a b", w, h), &config()).unwrap();
        let doc: serde_json::Value = serde_json::from_str(&text).unwrap();
        assert_eq!(doc["width"].as_u64(), Some(w as u64));
        assert_eq!(doc["height"].as_u64(), Some(h as u64));
        assert_eq!(doc["maxArea"].as_u64(), Some(1_000_000));
        assert_eq!(doc["id"].as_str(), Some("https://example.org/iiif/a b"));
        assert_eq!(doc["@context"].as_str(), Some("http://iiif.io/api/image/3/context.json"));
        assert_eq!(doc["type"].as_str(), Some("ImageService3"));
        assert_eq!(doc["profile"].as_str(), Some("level1"));
        assert_eq!(doc["extraQualities"].as_array().unwrap().len(), 3);
        assert_eq!(doc["extraFeatures"].as_array().unwrap().len(), 11);
        assert_eq!(doc["preferredFormats"][0].as_str(), Some("tga"));
    }
}

#[test]
fn descriptor_values() {
    let info = IIIFInfo::describe(&view("test", 8, 6), &config());
    assert_eq!(info.id, "https://example.org/iiif/test");
    assert_eq!(info.protocol, "http://iiif.io/api/image");
    assert_eq!(info.profile, "level1");
    assert_eq!((info.width, info.height, info.max_area), (8, 6, 1_000_000));
    assert_eq!(info.preferred_formats, vec!["tga", "png", "jpeg", "ico", "bmp"]);
    assert_eq!(info.extra_qualities, vec!["default", "bitonal", "gray"]);
    assert_eq!(info.extra_features.len(), 11);
    assert!(info.jsonify().starts_with("\"id\":\"https://example.org/iiif/test\",\"type\":\"ImageService3\""));
}

#[test]
fn config_getters() {
    let c = config();
    assert_eq!(c.ip(), (192, 168, 0, 7));
    assert_eq!(c.port(), 8443);
    assert_eq!(c.image_path(), "/srv/pictures");
    assert_eq!(c.jpg_quality(), 75);
    assert_eq!(c.base_address(), "https://example.org");
    assert_eq!(c.max_area(), 1_000_000);
    assert_eq!(ip(&c), (192, 168, 0, 7));
    assert_eq!(port(&c), 8443);
    assert_eq!(image_path(&c), "/srv/pictures");
    assert_eq!(jpg_quality(&c), 75);
    assert_eq!(base_address(&c), "https://example.org");
    assert_eq!(max_area(&c), 1_000_000);
    assert_eq!(address_as_str(&c), "192.168.0.7:8443");
}

#[test]
fn config_default() {
    let c = Config::default();
    assert_eq!(c.ip, (127, 0, 0, 1));
    assert_eq!(c.port, 8000);
    assert!(!c.ssl_enabled);
    assert_eq!(c.ssl_key, "");
    assert_eq!(c.ssl_cert, "");
    assert_eq!(c.image_path, "./files");
    assert_eq!(c.jpg_quality, 80);
    assert_eq!(c.base_address, "http://localhost");
    assert_eq!(address_as_str(&c), "127.0.0.1:8000");
}

#[test]
fn config_serialize() {
    assert_eq!(
        config().serialize(),
        "{\n    \"ip\": [\n        192,\n        168,\n        0,\n        7\n    ],\n    \"port\": 8443,\n    \"ssl\": {\n        \"enabled\": true,\n        \"key\": \"/etc/key.pem\",\n        \"cert\": \"/etc/cert.pem\"\n    },\n    \"image_path\": \"/srv/pictures\",\n    \"jpg_quality\": 75,\n    \"base_address\": \"https://example.org\",\n    \"max_area\": 1000000\n}"
    );
}

#[test]
fn config_is_read_back_as_it_was_written() {
    for c in [config(), Config::default()] {
        let back = Config::load(&c.serialize()).unwrap();
        assert_eq!(back.ip, c.ip);
        assert_eq!(back.port, c.port);
        assert_eq!(back.ssl_enabled, c.ssl_enabled);
        assert_eq!(back.ssl_key, c.ssl_key);
        assert_eq!(back.ssl_cert, c.ssl_cert);
        assert_eq!(back.image_path, c.image_path);
        assert_eq!(back.jpg_quality, c.jpg_quality);
        assert_eq!(back.base_address, c.base_address);
        assert_eq!(back.max_area, c.max_area);
    }
}

#[test]
fn config_load_holds_numbers_to_their_bounds() {
    let text = |ip: &str, port: &str, quality: &str| {
        format!(
            "{{\"ip\":{},\"port\":{},\"ssl\":{{\"enabled\":false,\"key\":\"k\",\"cert\":\"c\"}},\"image_path\":\"p\",\"jpg_quality\":{},\"base_address\":\"b\",\"max_area\":5}}",
            ip, port, quality
        )
    };
    let c = Config::load(&text("[0,1,255,1,9]", "65535", "100")).unwrap();
    assert_eq!(c.ip, (0, 1, 255, 1));
    assert_eq!(c.port(), 65535);
    assert_eq!(c.jpg_quality(), 100);
    assert_eq!(c.max_area, 5);
    let c = Config::load(&text("[10,0,0,1]", "0", "0")).unwrap();
    assert_eq!(c.port(), 0);
    assert_eq!(c.jpg_quality(), 0);

    for port in ["65536", "70000", "18446744073709551615", "-1", "80.5", "\"80\""] {
        assert_eq!(
            Config::load(&text("[1,2,3,4]", port, "80")).unwrap_err(),
            "Cannot parse Port in Configuration file."
        );
    }
    for quality in ["101", "200", "300", "336", "-1", "\"80\""] {
        assert_eq!(
            Config::load(&text("[1,2,3,4]", "80", quality)).unwrap_err(),
            "Cannot parse JPG Quality in Configuration file."
        );
    }
    for ip in ["[256,0,0,1]", "[1,2,3,300]", "[1,2,511,4]", "[1,-2,3,4]"] {
        assert_eq!(
            Config::load(&text(ip, "80", "80")).unwrap_err(),
            "Cannot parse IP from configuration file."
        );
    }
}

#[test]
fn config_load_errors() {
    let full = |skip: &str| {
        let mut parts: Vec<String> = Vec::new();
        for (key, value) in [
            ("ip", "[1,2,3,4]"),
            ("port", "80"),
            ("ssl", "{\"enabled\":false,\"key\":\"k\",\"cert\":\"c\"}"),
            ("image_path", "\"p\""),
            ("jpg_quality", "80"),
            ("base_address", "\"b\""),
            ("max_area", "5"),
        ] {
            if key != skip {
                parts.push(format!("\"{}\":{}", key, value));
            }
        }
        format!("{{{}}}", parts.join(","))
    };
    assert!(Config::load(&full("")).is_ok());
    assert_eq!(Config::load(&full("ip")).unwrap_err(), "Cannot parse IP from Configuration file.");
    assert_eq!(Config::load(&full("port")).unwrap_err(), "Cannot parse Port in Configuration file.");
    assert_eq!(Config::load(&full("ssl")).unwrap_err(), "Cannot parse SSL enabled in Config file.");
    assert_eq!(
        Config::load(&full("image_path")).unwrap_err(),
        "Cannot parse path to Image folder in Configuration file."
    );
    assert_eq!(Config::load(&full("jpg_quality")).unwrap_err(), "Cannot parse JPG Quality in Configuration file.");
    assert_eq!(Config::load(&full("base_address")).unwrap_err(), "Cannot parse base_address in Configuration file.");
    assert_eq!(Config::load(&full("max_area")).unwrap_err(), "Cannot parse max_area in Configuration file.");
    assert_eq!(Config::load("{}").unwrap_err(), "Cannot parse Port in Configuration file.");
    assert_eq!(
        Config::load("{\"port\":1,\"ip\":[1,2,3]}").unwrap_err(),
        "Cannot parse IP from configuration file."
    );
    assert_eq!(
        Config::load("{\"port\":1,\"ip\":[1,2,\"3\",4]}").unwrap_err(),
        "Cannot parse IP from configuration file."
    );
    assert_eq!(Config::load("{\"port\":1,\"ip\":7}").unwrap_err(), "Cannot parse IP from Configuration file.");
    assert_eq!(Config::load("{\"port\":-1}").unwrap_err(), "Cannot parse Port in Configuration file.");
    assert_eq!(
        Config::load("{\"port\":1,\"ip\":[1,2,3,4],\"ssl\":{\"enabled\":true}}").unwrap_err(),
        "Cannot parse path to SSL Key in Config File."
    );
    assert_eq!(
        Config::load("{\"port\":1,\"ip\":[1,2,3,4],\"ssl\":{\"enabled\":true,\"key\":\"k\"}}").unwrap_err(),
        "Cannot parse path to SSL Certificate in Config File."
    );
    assert!(Config::load("not json").unwrap_err().starts_with("Cannot parse config file --- "));
    assert!(Config::load("[1,2]").unwrap_err().starts_with("Cannot parse config file --- "));
}

#[test]
fn config_from_a_document() {
    let mut ssl = serde_json::Map::new();
    ssl.insert("enabled".to_owned(), serde_json::Value::Bool(true));
    ssl.insert("key".to_owned(), serde_json::Value::String("k".to_owned()));
    ssl.insert("cert".to_owned(), serde_json::Value::String("c".to_owned()));
    let mut doc = serde_json::Map::new();
    doc.insert("port".to_owned(), serde_json::Value::from(81u64));
    doc.insert(
        "ip".to_owned(),
        serde_json::Value::Array(vec![10u64.into(), 0u64.into(), 0u64.into(), 2u64.into()]),
    );
    doc.insert("ssl".to_owned(), serde_json::Value::Object(ssl));
    doc.insert("image_path".to_owned(), serde_json::Value::String("p".to_owned()));
    doc.insert("jpg_quality".to_owned(), serde_json::Value::from(90u64));
    doc.insert("base_address".to_owned(), serde_json::Value::String("b".to_owned()));
    assert_eq!(Config::parse_ip(&doc).unwrap(), (10, 0, 0, 2));
    assert_eq!(Config::parse_port(&doc).unwrap(), 81);
    assert_eq!(Config::parse_ssl_enabled(&doc).unwrap(), true);
    assert_eq!(Config::parse_ssl_key(&doc).unwrap(), "k");
    assert_eq!(Config::parse_ssl_cert(&doc).unwrap(), "c");
    assert_eq!(Config::parse_img_path(&doc).unwrap(), "p");
    assert_eq!(Config::parse_jpg_quality(&doc).unwrap(), 90);
    assert_eq!(Config::parse_base_address(&doc).unwrap(), "b");
    assert_eq!(Config::parse_max_area(&doc).unwrap_err(), "Cannot parse max_area in Configuration file.");
    assert_eq!(Config::from_document(&doc).unwrap_err(), "Cannot parse max_area in Configuration file.");
    doc.insert("max_area".to_owned(), serde_json::Value::from(12u64));
    let c = Config::from_document(&doc).unwrap();
    assert_eq!(address_as_str(&c), "10.0.0.2:81");
    assert_eq!(c.max_area, 12);
}

#[test]
fn errors_have_their_status_and_body() {
    let e = WifError::bad_request("Size not allowed".to_owned());
    assert_eq!((e.status, e.status.code()), (StatusCode::BadRequest, 400));
    assert_eq!(e.body(), "Size not allowed");
    assert_eq!(e.to_text(), "400 - Size not allowed");
    let e = WifError::not_found("x not found".to_owned());
    assert_eq!((e.status, e.status.code()), (StatusCode::NotFound, 404));
    assert_eq!(e.body(), "x not found");
    assert_eq!(e.to_text(), "404 - x not found");
    let e = WifError::internal_error("cannot open /srv/secret.png".to_owned());
    assert_eq!((e.status, e.status.code()), (StatusCode::InternalServerError, 500));
    assert_eq!(e.body(), "Internal Server Error");
    assert_eq!(e.to_text(), "500 - cannot open /srv/secret.png");
}

#[test]
fn pages() {
    let r = ResponderWrapper::server_error("oops");
    assert_eq!(r.content, b"<h1>500 - Internal Server Error</h1><div>oops</div>".to_vec());
    assert_eq!(r.status_code, Some(500));
    assert_eq!(r.content_type, "text/html; charset=UTF-8");
    let r = ResponderWrapper::not_found("nö");
    assert_eq!(r.content, "<h1>404 - Not found!</h1><div>nö</div>".as_bytes().to_vec());
    assert_eq!(r.status_code(), 404);
    let r = ResponderWrapper::not_allowed("m");
    assert_eq!(r.content, b"<h1>403 - Forbidden!</h1><div>m</div>".to_vec());
    assert_eq!(r.status_code(), 403);
    let r = ResponderWrapper::not_authenticated("m");
    assert_eq!(r.content, b"<h1>401 - Not authenticated!</h1><div>m</div>".to_vec());
    assert_eq!(r.status_code(), 401);
    let r = ResponderWrapper::bad_request("m");
    assert_eq!(r.content, b"<h1>400 - Bad Request!</h1><div>m</div>".to_vec());
    assert_eq!(r.status_code(), 400);
    let r = ResponderWrapper::not_implemented("m");
    assert_eq!(r.content, b"<h1>400 - Bad Request!</h1><div>m</div>".to_vec());
    assert_eq!(r.status_code(), 501);
}

#[test]
fn answers_with_a_body() {
    let r = ResponderWrapper::json("{}".to_owned());
    assert_eq!((r.content.clone(), r.status_code(), r.content_type.as_str()), (b"{}".to_vec(), 200, "application/json"));
    let r = ResponderWrapper::ldjson_text("{}".to_owned());
    assert_eq!((r.content.clone(), r.status_code(), r.content_type.as_str()), (b"{}".to_vec(), 200, "application/ld+json"));
    let r = ResponderWrapper::text("hi");
    assert_eq!((r.content.clone(), r.status_code(), r.content_type.as_str()), (b"hi".to_vec(), 200, "text/html; charset=UTF-8"));
    let r = ResponderWrapper::img(vec![1, 2, 3], &OutputFormat::Tga);
    assert_eq!((r.content.clone(), r.status_code(), r.content_type.as_str()), (vec![1, 2, 3], 200, "image/x-targa"));
    let r = ResponderWrapper::img(vec![], &OutputFormat::Jpeg(9));
    assert_eq!(r.content_type, "image/jpeg");
    let r = ResponderWrapper { content: vec![], status_code: None, content_type: String::new() };
    assert_eq!(r.status_code(), 500);
}

#[test]
fn error_kinds_have_their_pages() {
    let r = ErrorReturnType::BadRequest("a".to_owned()).get_response();
    assert_eq!((r.status_code(), r.content.clone()), (400, b"<h1>400 - Bad Request!</h1><div>a</div>".to_vec()));
    let r = ErrorReturnType::NotFound("b".to_owned()).get_response();
    assert_eq!((r.status_code(), r.content.clone()), (404, b"<h1>404 - Not found!</h1><div>b</div>".to_vec()));
    let r = ErrorReturnType::InternalError("c".to_owned()).get_response();
    assert_eq!((r.status_code(), r.content.clone()), (500, b"<h1>500 - Internal Server Error</h1><div>c</div>".to_vec()));
}

#[test]
fn files_by_name() {
    assert_eq!(ImgInfo::path_of("/srv", "a.png"), "/srv/a.png");
    assert_eq!(ImgInfo::from_str("a.png", "/srv", true).unwrap().filepath, "/srv/a.png");
    match ImgInfo::from_str("a.png", "/srv", false).unwrap_err() {
        ErrorReturnType::BadRequest(m) => assert_eq!(m, "new try..."),
        other => panic!("{:?}", other),
    }
}

#[test]
fn formats_by_extension() {
    assert_eq!(path_format("a.png"), Some(SourceFormat::Png));
    assert_eq!(path_format("/srv/a.b.JPG"), Some(SourceFormat::Jpeg));
    assert_eq!(path_format("a.jpeg"), Some(SourceFormat::Jpeg));
    assert_eq!(path_format("a.Bmp"), Some(SourceFormat::Bmp));
    assert_eq!(path_format("a.tif"), Some(SourceFormat::Tiff));
    assert_eq!(path_format("a.TIFF"), Some(SourceFormat::Tiff));
    assert_eq!(path_format("a.gif"), None);
    assert_eq!(path_format("png"), None);
    assert_eq!(path_format("a."), None);
    assert_eq!(path_format(""), None);
}

#[test]
fn containers() {
    let src = image::DynamicImage::ImageRgb8(image::ImageBuffer::from_fn(6, 5, |x, y| image::Rgb([x as u8, y as u8, 0])));
    let mut bytes: Vec<u8> = Vec::new();
    src.write_to(&mut bytes, image::ImageOutputFormat::Png).unwrap();
    let decode = |bytes: &[u8]| Some(image::load_from_memory_with_format(bytes, image::ImageFormat::Png));
    let c = ImgContainer::from_file("/srv/a.png", decode(&bytes)).unwrap();
    assert_eq!(c.img, src);
    let body = c.body(OutputFormat::Bmp).unwrap();
    let back = image::load_from_memory_with_format(&body, image::ImageFormat::Bmp).unwrap();
    assert_eq!(back.dimensions(), (6, 5));
    match ImgContainer::from_file("/srv/a.png", None) {
        Err(ErrorReturnType::NotFound(m)) => assert_eq!(m, "File not found"),
        _ => panic!("a missing file was found"),
    }
    match ImgContainer::from_file("/srv/a.gif", decode(&bytes)) {
        Err(ErrorReturnType::InternalError(m)) => assert_eq!(m, "Unsupported image format"),
        _ => panic!("a format that is not read was read"),
    }
    assert!(matches!(ImgContainer::from_file("/srv/a.jpg", decode(b"broken")), Err(ErrorReturnType::InternalError(_))));
    let big = ImgContainer { img: image::DynamicImage::new_rgb8(300, 300) };
    match big.body(OutputFormat::Ico) {
        Err(ErrorReturnType::InternalError(m)) => assert!(m.starts_with("Could not write DynamicImage to buffer --- ")),
        _ => panic!("an icon of 300 pixels was written"),
    }
}

#[test]
fn text_helpers() {
    assert_eq!(chars_of("aç"), vec!['a', 'ç']);
    assert_eq!(string_of(&vec!['x', 'y']), "xy");
    assert_eq!(decimal_string(0), "0");
    assert_eq!(decimal_string(10), "10");
    assert_eq!(decimal_string(u64::MAX), "18446744073709551615");
    assert_eq!(to_lower(&chars_of("JpEg9É")), chars_of("jpeg9É"));
    assert_eq!(split_chars(&chars_of("a,,b,"), ','), vec![chars_of("a"), vec![], chars_of("b"), vec![]]);
    assert_eq!(split_chars(&chars_of(""), ','), vec![Vec::<char>::new()]);
}

#[test]
fn address_of_a_list_of_numbers() {
    assert_eq!(Config::address(&vec![Some(192), Some(168), Some(0), Some(7)]), Ok((192, 168, 0, 7)));
    assert_eq!(Config::address(&vec![Some(255), Some(0), Some(255), Some(1)]), Ok((255, 0, 255, 1)));
    assert_eq!(Config::address(&vec![Some(1), Some(2), Some(3), Some(4), None, Some(9)]), Ok((1, 2, 3, 4)));
    let refused = Err("Cannot parse IP from configuration file.".to_owned());
    assert_eq!(Config::address(&vec![]), refused);
    assert_eq!(Config::address(&vec![Some(1), Some(2), Some(3)]), refused);
    assert_eq!(Config::address(&vec![Some(1), None, Some(3), Some(4)]), refused);
    assert_eq!(Config::address(&vec![None, None, None, None]), refused);
    assert_eq!(Config::address(&vec![Some(256), Some(2), Some(3), Some(4)]), refused);
    assert_eq!(Config::address(&vec![Some(1), Some(2), Some(3), Some(u64::MAX)]), refused);
    assert_eq!(Config::address(&vec![Some(261), Some(256), Some(511), Some(1023)]), refused);
}

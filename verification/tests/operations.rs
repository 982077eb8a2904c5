use std::io::Cursor;

use image_converter::convert::Dimensions;
use image_converter::{convert_image, detect_format, get_dimensions};

fn encoded(width: u32, height: u32, format: image::ImageFormat) -> Vec<u8> {
    let img = image::RgbImage::new(width, height);
    let mut buf = Vec::new();
    image::DynamicImage::ImageRgb8(img)
        .write_to(&mut Cursor::new(&mut buf), format)
        .unwrap();
    buf
}

#[test]
fn detect_format_returns_the_canonical_name() {
    assert_eq!(
        detect_format(&encoded(2, 2, image::ImageFormat::Png)).unwrap(),
        "png"
    );
    assert_eq!(
        detect_format(&encoded(2, 2, image::ImageFormat::Jpeg)).unwrap(),
        "jpeg"
    );
    assert_eq!(
        detect_format(&encoded(2, 2, image::ImageFormat::WebP)).unwrap(),
        "webp"
    );
    assert_eq!(
        detect_format(&encoded(2, 2, image::ImageFormat::Gif)).unwrap(),
        "gif"
    );
    assert_eq!(
        detect_format(&encoded(2, 2, image::ImageFormat::Bmp)).unwrap(),
        "bmp"
    );
}

#[test]
fn detect_format_reports_each_failure() {
    assert_eq!(
        detect_format(&[]).unwrap_err(),
        "Failed to detect image format: Input is empty \u{2014} no image data provided"
    );
    assert_eq!(
        detect_format(&[0xDE, 0xAD, 0xBE, 0xEF]).unwrap_err(),
        "Failed to detect image format: Unrecognized image format"
    );
    assert_eq!(
        detect_format(b"II*\x00").unwrap_err(),
        "Failed to detect image format: Unsupported image format: Tiff"
    );
    assert_eq!(
        detect_format(b"P6\n1 1\n255\n").unwrap_err(),
        "Failed to detect image format: Unsupported image format: Pnm"
    );
}

#[test]
fn convert_image_takes_the_target_by_name() {
    let png = encoded(6, 4, image::ImageFormat::Png);
    for (name, canonical) in [
        ("png", "png"),
        ("jpeg", "jpeg"),
        ("jpg", "jpeg"),
        ("JPG", "jpeg"),
        ("Gif", "gif"),
        ("BMP", "bmp"),
    ] {
        let output = convert_image(&png, name).unwrap();
        assert_eq!(detect_format(&output).unwrap(), canonical);
        assert_eq!(
            get_dimensions(&output).unwrap(),
            Dimensions {
                width: 6,
                height: 4
            }
        );
    }
}

#[test]
fn convert_image_rejects_an_unknown_target_name() {
    let png = encoded(2, 2, image::ImageFormat::Png);
    assert_eq!(
        convert_image(&png, "avif").unwrap_err(),
        "Invalid target format: Unknown format name: \"avif\""
    );
    assert_eq!(
        convert_image(&png, "TIFF").unwrap_err(),
        "Invalid target format: Unknown format name: \"TIFF\""
    );
    assert_eq!(
        convert_image(&[], "").unwrap_err(),
        "Invalid target format: Unknown format name: \"\""
    );
}

#[test]
fn convert_image_rejects_webp_before_decoding() {
    let expected = "Format \"webp\" is not supported as an output format";
    let png = encoded(2, 2, image::ImageFormat::Png);
    assert_eq!(convert_image(&png, "webp").unwrap_err(), expected);
    assert_eq!(convert_image(&png, "WebP").unwrap_err(), expected);
    assert_eq!(convert_image(&[], "webp").unwrap_err(), expected);
    assert_eq!(convert_image(&[1, 2, 3], "WEBP").unwrap_err(), expected);
}

#[test]
fn convert_image_reports_a_decode_failure() {
    let diagnostic = image::load_from_memory(&[]).unwrap_err().to_string();
    assert_eq!(
        convert_image(&[], "png").unwrap_err(),
        format!("Failed to decode image: {}", diagnostic)
    );
    let message = convert_image(&[0xDE, 0xAD, 0xBE, 0xEF], "bmp").unwrap_err();
    assert!(message.starts_with("Failed to decode image: "));
}

#[test]
fn convert_image_leaves_the_input_as_it_was() {
    let png = encoded(5, 5, image::ImageFormat::Png);
    let before = png.clone();
    let _ = convert_image(&png, "bmp").unwrap();
    assert_eq!(png, before);
}

#[test]
fn get_dimensions_reads_width_and_height() {
    assert_eq!(
        get_dimensions(&encoded(31, 17, image::ImageFormat::Png)).unwrap(),
        Dimensions {
            width: 31,
            height: 17
        }
    );
    assert_eq!(
        get_dimensions(&encoded(1, 1, image::ImageFormat::Gif)).unwrap(),
        Dimensions {
            width: 1,
            height: 1
        }
    );
}

#[test]
fn get_dimensions_reports_a_decode_failure() {
    let message = get_dimensions(&[]).unwrap_err();
    assert!(message.starts_with("Failed to decode image: "));
    let message = get_dimensions(&[0xDE, 0xAD, 0xBE, 0xEF]).unwrap_err();
    assert!(message.starts_with("Failed to decode image: "));
    let png = encoded(10, 10, image::ImageFormat::Png);
    let message = get_dimensions(&png[..10]).unwrap_err();
    assert!(message.starts_with("Failed to decode image: "));
}

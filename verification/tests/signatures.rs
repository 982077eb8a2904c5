use image_converter::formats::{CodecFormat, FormatError, ImageFormat};

fn detect(bytes: &[u8]) -> Result<ImageFormat, FormatError> {
    ImageFormat::detect_from_bytes(bytes)
}

fn expect_unsupported(bytes: &[u8], name: &str) {
    match detect(bytes) {
        Err(FormatError::Unsupported(CodecFormat::Other(found))) => assert_eq!(found, name),
        other => panic!("expected unsupported {}, got {:?}", name, other),
    }
}

fn expect_unrecognized(bytes: &[u8]) {
    match detect(bytes) {
        Err(FormatError::Unrecognized) => {}
        other => panic!("expected unrecognized, got {:?}", other),
    }
}

const PNG_MAGIC: [u8; 8] = [0x89, b'P', b'N', b'G', b'\r', b'\n', 0x1a, b'\n'];

#[test]
fn png_signature_alone_is_enough() {
    assert_eq!(detect(&PNG_MAGIC).unwrap(), ImageFormat::Png);
    let mut longer = PNG_MAGIC.to_vec();
    longer.extend_from_slice(&[0, 1, 2, 3, 4, 5, 6, 7, 8, 9]);
    assert_eq!(detect(&longer).unwrap(), ImageFormat::Png);
}

#[test]
fn png_signature_cut_short_is_unrecognized() {
    for cut in 1..PNG_MAGIC.len() {
        expect_unrecognized(&PNG_MAGIC[..cut]);
    }
}

#[test]
fn png_signature_with_one_byte_changed_is_unrecognized() {
    for at in 0..PNG_MAGIC.len() {
        let mut bytes = PNG_MAGIC;
        bytes[at] ^= 0x01;
        assert!(!matches!(detect(&bytes), Ok(ImageFormat::Png)));
    }
    let mut bytes = PNG_MAGIC;
    bytes[7] = 0x0b;
    expect_unrecognized(&bytes);
}

#[test]
fn jpeg_signature() {
    assert_eq!(detect(&[0xff, 0xd8, 0xff]).unwrap(), ImageFormat::Jpeg);
    assert_eq!(detect(&[0xff, 0xd8, 0xff, 0xe0, 0x00]).unwrap(), ImageFormat::Jpeg);
    expect_unrecognized(&[0xff, 0xd8]);
    expect_unrecognized(&[0xff, 0xd8, 0xfe]);
    expect_unrecognized(&[0xff]);
}

#[test]
fn gif_signatures() {
    assert_eq!(detect(b"GIF89a").unwrap(), ImageFormat::Gif);
    assert_eq!(detect(b"GIF87a").unwrap(), ImageFormat::Gif);
    assert_eq!(detect(b"GIF89a\x01\x00\x01\x00").unwrap(), ImageFormat::Gif);
    expect_unrecognized(b"GIF88a");
    expect_unrecognized(b"GIF89");
    expect_unrecognized(b"GIF89b");
    expect_unrecognized(b"gif89a");
}

#[test]
fn bmp_signature() {
    assert_eq!(detect(b"BM").unwrap(), ImageFormat::Bmp);
    assert_eq!(detect(b"BM\x00\x00\x00\x00").unwrap(), ImageFormat::Bmp);
    expect_unrecognized(b"B");
    expect_unrecognized(b"MB");
}

#[test]
fn webp_container_skips_the_length_field() {
    assert_eq!(detect(b"RIFF\x00\x00\x00\x00WEBP").unwrap(), ImageFormat::WebP);
    assert_eq!(detect(b"RIFF\x12\x34\x56\x78WEBP").unwrap(), ImageFormat::WebP);
    assert_eq!(detect(b"RIFF\xff\xff\xff\xffWEBPVP8 ").unwrap(), ImageFormat::WebP);
}

#[test]
fn webp_container_needs_all_twelve_bytes() {
    expect_unrecognized(b"RIFF");
    expect_unrecognized(b"RIFF\x00\x00\x00\x00");
    expect_unrecognized(b"RIFF\x00\x00\x00\x00WEB");
    expect_unrecognized(b"RIFF\x00\x00\x00\x00WAVE");
    expect_unrecognized(b"RIFX\x00\x00\x00\x00WEBP");
    expect_unrecognized(b"RIFF\x00\x00\x00\x00WEBp");
}

#[test]
fn tiff_signatures_are_unsupported() {
    expect_unsupported(b"MM\x00*", "Tiff");
    expect_unsupported(b"II*\x00", "Tiff");
    expect_unsupported(b"II*\x00\x08\x00\x00\x00", "Tiff");
    expect_unrecognized(b"MM*\x00");
    expect_unrecognized(b"II\x00*");
    expect_unrecognized(b"MM\x00");
}

#[test]
fn dds_signature_is_unsupported() {
    expect_unsupported(b"DDS ", "Dds");
    expect_unsupported(b"DDS \x7c\x00\x00\x00", "Dds");
    expect_unrecognized(b"DDS");
    expect_unrecognized(b"DDS_");
}

#[test]
fn ico_signature_is_unsupported() {
    expect_unsupported(&[0, 0, 1, 0], "Ico");
    expect_unsupported(&[0, 0, 1, 0, 1, 0], "Ico");
    expect_unrecognized(&[0, 0, 1]);
    expect_unrecognized(&[0, 0, 2, 0]);
    expect_unrecognized(&[0, 0, 1, 1]);
}

#[test]
fn hdr_signature_is_unsupported() {
    expect_unsupported(b"#?RADIANCE", "Hdr");
    expect_unsupported(b"#?RADIANCE\n", "Hdr");
    expect_unrecognized(b"#?RADIANC");
    expect_unrecognized(b"#?RGBE");
}

#[test]
fn avif_container_skips_two_bytes_of_the_box_size() {
    expect_unsupported(b"\x00\x00\x00\x00ftypavif", "Avif");
    expect_unsupported(b"\x00\x00\x00\x20ftypavif", "Avif");
    expect_unsupported(b"\x00\x00\xab\xcdftypavif\x00\x00", "Avif");
}

#[test]
fn avif_container_needs_two_zero_bytes_and_the_brand() {
    expect_unrecognized(b"\x01\x00\x00\x20ftypavif");
    expect_unrecognized(b"\x00\x01\x00\x20ftypavif");
    expect_unrecognized(b"\x00\x00\x00\x20ftypavi");
    expect_unrecognized(b"\x00\x00\x00\x20ftypheic");
    expect_unrecognized(b"\x00\x00\x00\x20ftypavis");
}

#[test]
fn ico_is_tried_before_avif() {
    // Matches the ICO signature and the AVIF container at once.
    expect_unsupported(b"\x00\x00\x01\x00ftypavif", "Ico");
}

#[test]
fn openexr_signature_is_unsupported() {
    expect_unsupported(&[0x76, 0x2f, 0x31, 0x01], "OpenExr");
    expect_unsupported(&[0x76, 0x2f, 0x31, 0x01, 0x02], "OpenExr");
    expect_unrecognized(&[0x76, 0x2f, 0x31]);
    expect_unrecognized(&[0x76, 0x2f, 0x31, 0x02]);
}

#[test]
fn qoi_signature_is_unsupported() {
    expect_unsupported(b"qoif", "Qoi");
    expect_unsupported(b"qoif\x00\x00\x00\x01", "Qoi");
    expect_unrecognized(b"qoi");
    expect_unrecognized(b"qoig");
}

#[test]
fn pnm_headers_are_unsupported() {
    for digit in b'1'..=b'7' {
        expect_unsupported(&[b'P', digit], "Pnm");
        expect_unsupported(&[b'P', digit, b'\n', b'1', b' ', b'1'], "Pnm");
    }
    expect_unrecognized(b"P0");
    expect_unrecognized(b"P8");
    expect_unrecognized(b"P");
    expect_unrecognized(b"p1");
}

#[test]
fn farbfeld_signature_is_unsupported() {
    expect_unsupported(b"farbfeld", "Farbfeld");
    expect_unsupported(b"farbfeld\x00\x00\x00\x01", "Farbfeld");
    expect_unrecognized(b"farbfel");
    expect_unrecognized(b"farbfelt");
}

#[test]
fn bytes_without_a_signature_are_unrecognized() {
    expect_unrecognized(&[0xDE, 0xAD, 0xBE, 0xEF, 0x00, 0x11, 0x22, 0x33]);
    expect_unrecognized(&[0x00]);
    expect_unrecognized(&[0x00; 32]);
    expect_unrecognized(b"hello, world");
    expect_unrecognized(b"<svg xmlns=\"http://www.w3.org/2000/svg\"/>");
}

#[test]
fn only_the_start_of_the_input_counts() {
    let mut bytes = vec![0x20u8];
    bytes.extend_from_slice(&PNG_MAGIC);
    expect_unrecognized(&bytes);
    let mut bytes = b"GIF89a".to_vec();
    bytes.extend_from_slice(&PNG_MAGIC);
    assert_eq!(detect(&bytes).unwrap(), ImageFormat::Gif);
}

#[test]
fn unsupported_detection_is_reported_by_name() {
    let error = detect(b"II*\x00").unwrap_err();
    assert_eq!(error.to_string(), "Unsupported image format: Tiff");
    let error = detect(b"qoif").unwrap_err();
    assert_eq!(error.to_string(), "Unsupported image format: Qoi");
}

//! Recomputes the pipeline's outputs step by step with the codec, hash and
//! base64 crates directly, and holds the library's results to them.

use base64::Engine;
use image_placeholder::image_utilities::{image_to_base64, ImageKind};
use image_placeholder::{get_image_placeholder, PlaceholderResult};

fn fixture_jpeg(width: u32, height: u32) -> Vec<u8> {
    let rgb = image::RgbImage::from_fn(width, height, |x, y| {
        image::Rgb([(x * 5 % 256) as u8, (y * 13 % 256) as u8, ((x * y) % 256) as u8])
    });
    let mut cursor = std::io::Cursor::new(Vec::new());
    image::DynamicImage::ImageRgb8(rgb)
        .write_to(&mut cursor, image::ImageFormat::Jpeg)
        .expect("fixture encoding should succeed");
    cursor.into_inner()
}

fn reference_channel_byte(x: f32) -> u8 {
    (256.0 * x).round() as u8
}

#[test]
fn placeholder_matches_a_direct_recomputation() {
    let bytes = fixture_jpeg(120, 80);

    // The same steps, taken with the outside crates directly.
    let decoded = image::load_from_memory(&bytes).expect("fixture should decode");
    let rgba = decoded.to_rgba8();
    let shrunk = image::imageops::resize(&rgba, 100, 100, image::imageops::FilterType::Lanczos3);
    let hash = thumbhash::rgba_to_thumb_hash(100, 100, shrunk.as_raw());
    let (r, g, b, a) = thumbhash::thumb_hash_to_average_rgba(&hash).expect("average");
    let expected_average = format!(
        "#{:02x}{:02x}{:02x}{:02x}",
        reference_channel_byte(r),
        reference_channel_byte(g),
        reference_channel_byte(b),
        reference_channel_byte(a)
    );
    let (pw, ph, ppx) = thumbhash::thumb_hash_to_rgba(&hash).expect("preview");
    let preview = image::RgbaImage::from_raw(pw as u32, ph as u32, ppx).expect("preview buffer");
    let mut cursor = std::io::Cursor::new(Vec::new());
    let encoder = image::codecs::jpeg::JpegEncoder::new_with_quality(&mut cursor, 90);
    image::DynamicImage::ImageRgba8(preview)
        .to_rgb8()
        .write_with_encoder(encoder)
        .expect("preview encoding");
    let payload = base64::engine::general_purpose::STANDARD_NO_PAD.encode(cursor.into_inner());
    let expected_base64 = format!("data:image/jpeg;base64,{payload}");

    match get_image_placeholder(&bytes) {
        PlaceholderResult::Success(success) => {
            assert_eq!(expected_average, success.average);
            assert_eq!(expected_base64, success.base64);
            assert_eq!(120, success.metadata.width);
            assert_eq!(80, success.metadata.height);
            assert_eq!("image/jpeg", success.metadata.format);
        },
        PlaceholderResult::Failure(message) => panic!("unexpected failure: {message}"),
    }
}

#[test]
fn data_uri_wraps_the_exact_base64_payload() {
    assert_eq!(
        Some("data:image/png;base64,YWJj".to_string()),
        image_to_base64(b"abc", ImageKind::Png)
    );
    assert_eq!(
        Some("data:image/jpeg;base64,".to_string()),
        image_to_base64(b"", ImageKind::Jpeg)
    );
    assert_eq!(None, image_to_base64(b"abc", ImageKind::Unsupported));
}

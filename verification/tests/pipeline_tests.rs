use image_placeholder::{
    get_image_placeholder, get_resized_image, input_image_hash, PlaceholderResult,
    ResizeImageOptions, ResizeResult,
};

/// A small deterministic RGB gradient image.
fn fixture_rgb(width: u32, height: u32) -> image::RgbImage {
    image::RgbImage::from_fn(width, height, |x, y| {
        image::Rgb([(x * 7 % 256) as u8, (y * 11 % 256) as u8, ((x + y) * 3 % 256) as u8])
    })
}

fn fixture_bytes(width: u32, height: u32, format: image::ImageFormat) -> Vec<u8> {
    let mut cursor = std::io::Cursor::new(Vec::new());
    image::DynamicImage::ImageRgb8(fixture_rgb(width, height))
        .write_to(&mut cursor, format)
        .expect("fixture encoding should succeed");
    cursor.into_inner()
}

#[test]
fn empty_bytes_yield_the_decode_error() {
    let result = get_image_placeholder(&[]);
    match result {
        PlaceholderResult::Failure(message) => {
            assert_eq!("Unable to read input image bytes.", message);
        },
        PlaceholderResult::Success(_) => panic!("expected a failure for empty bytes"),
    }
}

#[test]
fn garbage_bytes_yield_the_decode_error() {
    let result = get_image_placeholder(b"not an image at all");
    match result {
        PlaceholderResult::Failure(message) => {
            assert_eq!("Unable to read input image bytes.", message);
        },
        PlaceholderResult::Success(_) => panic!("expected a failure for garbage bytes"),
    }
}

#[test]
fn jpeg_placeholder_is_fully_populated() {
    let bytes = fixture_bytes(100, 75, image::ImageFormat::Jpeg);
    match get_image_placeholder(&bytes) {
        PlaceholderResult::Success(success) => {
            assert_eq!(100, success.metadata.width);
            assert_eq!(75, success.metadata.height);
            assert_eq!("image/jpeg", success.metadata.format);
            assert!(success.base64.starts_with("data:image/jpeg;base64,"));
            assert!(success.base64.len() > "data:image/jpeg;base64,".len());
            assert_eq!(9, success.average.len());
            assert!(success.average.starts_with('#'));
            assert!(success.average[1..].chars().all(|c| c.is_ascii_hexdigit()));
        },
        PlaceholderResult::Failure(message) => panic!("unexpected failure: {message}"),
    }
}

#[test]
fn png_placeholder_carries_the_png_mime_type() {
    let bytes = fixture_bytes(64, 32, image::ImageFormat::Png);
    match get_image_placeholder(&bytes) {
        PlaceholderResult::Success(success) => {
            assert_eq!(64, success.metadata.width);
            assert_eq!(32, success.metadata.height);
            assert_eq!("image/png", success.metadata.format);
            assert!(success.base64.starts_with("data:image/png;base64,"));
        },
        PlaceholderResult::Failure(message) => panic!("unexpected failure: {message}"),
    }
}

#[test]
fn placeholder_is_deterministic() {
    let bytes = fixture_bytes(100, 75, image::ImageFormat::Jpeg);
    let first = get_image_placeholder(&bytes);
    let second = get_image_placeholder(&bytes);
    assert_eq!(first, second);
}

#[test]
fn unsupported_format_placeholder_yields_the_format_error() {
    let bytes = fixture_bytes(20, 20, image::ImageFormat::Bmp);
    match get_image_placeholder(&bytes) {
        PlaceholderResult::Failure(message) => {
            assert_eq!("Image format not currently supported.", message);
        },
        PlaceholderResult::Success(_) => panic!("expected a failure for a BMP input"),
    }
}

#[test]
fn resize_width_only_scales_to_the_aspect_ratio() {
    let bytes = fixture_bytes(200, 100, image::ImageFormat::Png);
    let options = ResizeImageOptions { width: Some(50), height: None, fit: None };
    match get_resized_image(&bytes, options) {
        ResizeResult::Success { image_bytes, mime_type } => {
            assert_eq!("image/png", mime_type);
            let resized = image::load_from_memory(&image_bytes).expect("output should decode");
            assert_eq!(50, image::GenericImageView::width(&resized));
            assert_eq!(25, image::GenericImageView::height(&resized));
        },
        ResizeResult::Failure(error) => panic!("unexpected failure: {error}"),
    }
}

#[test]
fn resize_without_options_keeps_the_dimensions() {
    let bytes = fixture_bytes(33, 21, image::ImageFormat::Png);
    let options = ResizeImageOptions { width: None, height: None, fit: None };
    match get_resized_image(&bytes, options) {
        ResizeResult::Success { image_bytes, mime_type } => {
            assert_eq!("image/png", mime_type);
            let resized = image::load_from_memory(&image_bytes).expect("output should decode");
            assert_eq!(33, image::GenericImageView::width(&resized));
            assert_eq!(21, image::GenericImageView::height(&resized));
        },
        ResizeResult::Failure(error) => panic!("unexpected failure: {error}"),
    }
}

#[test]
fn resize_contain_fits_the_box() {
    let bytes = fixture_bytes(200, 100, image::ImageFormat::Jpeg);
    let options = ResizeImageOptions {
        width: Some(50),
        height: Some(50),
        fit: Some("contain".to_string()),
    };
    match get_resized_image(&bytes, options) {
        ResizeResult::Success { image_bytes, mime_type } => {
            assert_eq!("image/jpeg", mime_type);
            let resized = image::load_from_memory(&image_bytes).expect("output should decode");
            assert_eq!(50, image::GenericImageView::width(&resized));
            assert_eq!(25, image::GenericImageView::height(&resized));
        },
        ResizeResult::Failure(error) => panic!("unexpected failure: {error}"),
    }
}

#[test]
fn resize_cover_fills_the_box_exactly() {
    let bytes = fixture_bytes(200, 100, image::ImageFormat::Png);
    let options = ResizeImageOptions {
        width: Some(50),
        height: Some(50),
        fit: Some("clip".to_string()),
    };
    match get_resized_image(&bytes, options) {
        ResizeResult::Success { image_bytes, .. } => {
            let resized = image::load_from_memory(&image_bytes).expect("output should decode");
            assert_eq!(50, image::GenericImageView::width(&resized));
            assert_eq!(50, image::GenericImageView::height(&resized));
        },
        ResizeResult::Failure(error) => panic!("unexpected failure: {error}"),
    }
}

#[test]
fn resize_of_empty_bytes_yields_the_decode_error() {
    let options = ResizeImageOptions { width: Some(10), height: None, fit: None };
    match get_resized_image(&[], options) {
        ResizeResult::Failure(error) => {
            assert_eq!("Unable to read input image bytes.", error);
        },
        ResizeResult::Success { .. } => panic!("expected a failure for empty bytes"),
    }
}

#[test]
fn resize_of_unsupported_format_yields_the_format_error() {
    let bytes = fixture_bytes(20, 20, image::ImageFormat::Bmp);
    let options = ResizeImageOptions { width: Some(10), height: None, fit: None };
    match get_resized_image(&bytes, options) {
        ResizeResult::Failure(error) => {
            assert_eq!("Unsupported image format", error);
        },
        ResizeResult::Success { .. } => panic!("expected a failure for a BMP input"),
    }
}

#[test]
fn resize_beyond_the_jpeg_size_cap_reports_the_encode_failure() {
    // A JPEG cannot be wider than 65535 pixels, so re-encoding fails.
    let bytes = fixture_bytes(2, 2, image::ImageFormat::Jpeg);
    let options = ResizeImageOptions {
        width: Some(70_000),
        height: Some(1),
        fit: Some("fill".to_string()),
    };
    match get_resized_image(&bytes, options) {
        ResizeResult::Failure(error) => {
            assert_eq!("Unable to encode output image.", error);
        },
        ResizeResult::Success { .. } => panic!("expected the encoder to reject the width"),
    }
}

#[test]
fn fingerprints_are_deterministic_and_sensitive() {
    let bytes = fixture_bytes(100, 75, image::ImageFormat::Jpeg);
    let first = input_image_hash(&bytes);
    let second = input_image_hash(&bytes);
    assert_eq!(first, second);

    let mut mutated = bytes.clone();
    let middle = mutated.len() / 2;
    mutated[middle] = mutated[middle].wrapping_add(1);
    assert_ne!(first, input_image_hash(&mutated));
}

#[test]
fn fingerprint_of_empty_bytes_matches_the_golden_value() {
    assert_eq!("2d06800538d3", input_image_hash(&[]));
}

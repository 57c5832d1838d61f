use image_placeholder::color::{quantize_channel, rgba_to_hex};
use image_placeholder::hexfmt::u64_hex;
use image_placeholder::input_image_hash;

/// The byte the colour codec is specified to produce for a channel value.
fn reference_quantize(x: f32) -> u8 {
    assert!((0.0..=1.0).contains(&x));
    (256.0 * x).round() as u8
}

#[test]
fn quantize_matches_the_float_formula() {
    let samples: Vec<f32> = vec![
        0.0,
        1.0,
        0.5,
        0.25,
        0.75,
        0.123,
        0.999999,
        0.001,
        0.0019531,
        0.0019532,
        1.0e-30,
        f32::MIN_POSITIVE,
        0.41568628,
        0.46666667,
        0.45490196,
    ];
    for x in samples {
        assert_eq!(reference_quantize(x), quantize_channel(x.to_bits()), "channel {x}");
    }
}

#[test]
fn quantize_covers_every_half_step_boundary() {
    // Walk all byte values through their exact boundaries: k/256 maps to k.
    for k in 0..=255u32 {
        let x = k as f32 / 256.0;
        assert_eq!(reference_quantize(x), quantize_channel(x.to_bits()));
    }
}

#[test]
fn rgba_to_hex_of_black_transparent_is_all_zero() {
    let zero = 0.0f32.to_bits();
    assert_eq!("#00000000", rgba_to_hex(zero, zero, zero, zero));
}

#[test]
fn rgba_to_hex_of_opaque_white_saturates() {
    let one = 1.0f32.to_bits();
    assert_eq!("#ffffffff", rgba_to_hex(one, one, one, one));
}

#[test]
fn rgba_to_hex_is_always_nine_characters() {
    let samples: Vec<f32> = vec![0.0, 1.0, 0.5, 0.0625, 0.9, 0.33];
    for r in &samples {
        for a in &samples {
            let s = rgba_to_hex(r.to_bits(), 0.5f32.to_bits(), a.to_bits(), r.to_bits());
            assert_eq!(9, s.len());
            assert!(s.starts_with('#'));
        }
    }
}

#[test]
fn rgba_to_hex_mixed_channels() {
    // 0.5 -> 128 = 0x80, 0.25 -> 64 = 0x40, 1.0 -> 255 = 0xff, 0.0 -> 0.
    let s = rgba_to_hex(
        0.5f32.to_bits(),
        0.25f32.to_bits(),
        1.0f32.to_bits(),
        0.0f32.to_bits(),
    );
    assert_eq!("#8040ff00", s);
}

#[test]
fn u64_hex_matches_the_standard_formatting() {
    for n in [0u64, 1, 9, 10, 15, 16, 255, 256, 0xdead_beef, u64::MAX, u64::MAX >> 16] {
        assert_eq!(format!("{n:x}"), u64_hex(n));
    }
}

#[test]
fn fingerprint_matches_the_truncated_hash_formula() {
    let bytes = b"placeholder fingerprint sample";
    let expected = format!("{:x}", xxhash_rust::const_xxh3::xxh3_64(bytes) >> 16);
    assert_eq!(expected, input_image_hash(bytes));
}

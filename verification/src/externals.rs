//! Trusted boundary: named results and thin wrappers for the outside
//! codec, resampling, perceptual-hash, base64 and content-hash calls the
//! library's logic is built around. Verus believes the contracts stated
//! here; everything else in the crate is proved against them.

use vstd::prelude::*;

use base64::Engine;

use crate::color::unit_bits;
use crate::image_utilities::ImageKind;
use crate::RawImage;

verus! {

/// The RGBA8 decoding of an image byte stream: its pixel dimensions and
/// pixel bytes, or nothing when the bytes are not a decodable image.
pub uninterp spec fn decoded_rgba_of(bytes: Seq<u8>) -> Option<(u32, u32, Seq<u8>)>;

/// The Lanczos3 resampling of an RGBA8 image to the given dimensions.
pub uninterp spec fn resampled_of(
    in_w: int,
    in_h: int,
    pixels: Seq<u8>,
    out_w: int,
    out_h: int,
) -> Seq<u8>;

/// The container format the sniffer recognises at the head of the bytes,
/// collapsed onto the formats this library can re-encode.
pub uninterp spec fn sniffed_format_of(bytes: Seq<u8>) -> ImageKind;

/// The perceptual-hash payload of an RGBA8 image.
pub uninterp spec fn thumb_hash_of(w: int, h: int, rgba: Seq<u8>) -> Seq<u8>;

/// The preview image reconstructed from a perceptual-hash payload, or
/// nothing when the payload is too short.
pub uninterp spec fn reconstructed_of(hash: Seq<u8>) -> Option<(usize, usize, Seq<u8>)>;

/// The average colour a perceptual-hash payload encodes, as the bit
/// patterns of four binary32 channel values in [0, 1], or nothing when the
/// payload is too short.
pub uninterp spec fn average_bits_of(hash: Seq<u8>) -> Option<(u32, u32, u32, u32)>;

/// The PNG encoding of an RGBA8 image, or nothing when the encoder rejects
/// the dimensions.
pub uninterp spec fn png_encoded_of(w: int, h: int, rgba: Seq<u8>) -> Option<Seq<u8>>;

/// The JPEG encoding of an RGBA8 image at the given quality (the alpha
/// channel is dropped first), or nothing when the encoder rejects the
/// dimensions.
pub uninterp spec fn jpeg_encoded_of(w: int, h: int, rgba: Seq<u8>, quality: u8) -> Option<
    Seq<u8>,
>;

/// The unpadded standard-alphabet base64 encoding of the bytes.
pub uninterp spec fn base64_of(bytes: Seq<u8>) -> Seq<char>;

/// The 64-bit XXH3 hash of the bytes.
pub uninterp spec fn xxh3_of(bytes: Seq<u8>) -> u64;

/// A perceptual-hash payload as the encoder lays it out: at least the five
/// header bytes, and a sixth byte whenever the alpha flag (the top bit of
/// the third byte) is set.
pub open spec fn valid_thumb_hash(hash: Seq<u8>) -> bool {
    hash.len() >= 5 && (hash[2] >= 0x80 ==> hash.len() >= 6)
}

/// Relies on image::load_from_memory and DynamicImage::to_rgba8: decoding
/// is a pure function of the bytes, and the RGBA8 buffer holds exactly
/// width * height pixels of four bytes.
#[verifier::external_body]
pub(crate) fn decode_rgba(bytes: &[u8]) -> (r: Option<RawImage>)
    ensures
        match r {
            Some(img) => decoded_rgba_of(bytes@) == Some(
                (img.width, img.height, img.pixels@),
            ) && img.wf(),
            None => decoded_rgba_of(bytes@) is None,
        },
{
    match image::load_from_memory(bytes) {
        Ok(decoded) => {
            let rgba = decoded.to_rgba8();
            let (width, height) = rgba.dimensions();
            Some(RawImage { width, height, pixels: rgba.into_raw() })
        },
        Err(_) => None,
    }
}

/// Relies on image::imageops::resize with the Lanczos3 filter: resampling
/// is a pure function of the pixels and dimensions, and the output buffer
/// holds exactly out_w * out_h pixels. The size bounds keep the resampler's
/// output and intermediate buffers allocatable.
#[verifier::external_body]
pub(crate) fn resample_rgba(image: &RawImage, out_w: u32, out_h: u32) -> (r: Vec<u8>)
    requires
        image.wf(),
        1 <= image.width,
        1 <= image.height,
        1 <= out_w,
        1 <= out_h,
        out_w * out_h * 4 <= usize::MAX,
        out_w * image.height * 4 <= usize::MAX,
        out_h * image.width * 4 <= usize::MAX,
    ensures
        r@ == resampled_of(
            image.width as int,
            image.height as int,
            image.pixels@,
            out_w as int,
            out_h as int,
        ),
        r@.len() == out_w * out_h * 4,
{
    let buffer: image::RgbaImage = image::ImageBuffer::from_raw(
        image.width,
        image.height,
        image.pixels.clone(),
    ).unwrap();
    let resized = image::imageops::resize(&buffer, out_w, out_h, image::imageops::FilterType::Lanczos3);
    resized.into_raw()
}

/// Relies on image::guess_format: the magic bytes at the head of the
/// buffer decide the format, so the result depends on the bytes alone.
#[verifier::external_body]
pub(crate) fn sniff_format(bytes: &[u8]) -> (r: ImageKind)
    ensures
        r == sniffed_format_of(bytes@),
{
    match image::guess_format(bytes) {
        Ok(image::ImageFormat::Png) => ImageKind::Png,
        Ok(image::ImageFormat::Jpeg) => ImageKind::Jpeg,
        Ok(_) => ImageKind::Unsupported,
        Err(_) => ImageKind::Unsupported,
    }
}

/// Relies on thumbhash::rgba_to_thumb_hash: the payload depends on the
/// dimensions and pixels alone, starts with five header bytes, and carries
/// a sixth byte exactly when its alpha flag is set. The function asserts
/// that the image is at most 100 pixels a side with a matching buffer, so
/// those bounds are required here.
#[verifier::external_body]
pub(crate) fn thumb_hash_bytes(w: usize, h: usize, rgba: &Vec<u8>) -> (r: Vec<u8>)
    requires
        w <= 100,
        h <= 100,
        rgba@.len() == w * h * 4,
    ensures
        r@ == thumb_hash_of(w as int, h as int, rgba@),
        valid_thumb_hash(r@),
{
    thumbhash::rgba_to_thumb_hash(w, h, rgba)
}

/// Relies on thumbhash::thumb_hash_to_rgba: reconstruction depends on the
/// payload alone, fails only by returning an error, and yields a preview of
/// at most 32 pixels a side with exactly w * h RGBA quadruples.
#[verifier::external_body]
pub(crate) fn thumb_hash_preview(hash: &Vec<u8>) -> (r: Option<(usize, usize, Vec<u8>)>)
    ensures
        match r {
            Some(p) => reconstructed_of(hash@) == Some((p.0, p.1, p.2@)) && p.2@.len() == p.0
                * p.1 * 4 && p.0 <= 32 && p.1 <= 32,
            None => reconstructed_of(hash@) is None,
        },
{
    match thumbhash::thumb_hash_to_rgba(hash) {
        Ok(preview) => Some(preview),
        Err(_) => None,
    }
}

/// Relies on thumbhash::thumb_hash_to_average_rgba: the channels depend on
/// the payload alone, are clamped into [0, 1], and the call fails exactly
/// when fewer than five bytes are handed over. It reads a sixth byte
/// without checking for it when the alpha flag is set, which the
/// precondition rules out for five-byte payloads.
#[verifier::external_body]
pub(crate) fn thumb_hash_average_bits(hash: &Vec<u8>) -> (r: Option<(u32, u32, u32, u32)>)
    requires
        hash@.len() == 5 ==> hash@[2] < 0x80,
    ensures
        r is Some <==> hash@.len() >= 5,
        match r {
            Some(c) => average_bits_of(hash@) == Some(c) && unit_bits(c.0) && unit_bits(c.1)
                && unit_bits(c.2) && unit_bits(c.3),
            None => average_bits_of(hash@) is None,
        },
{
    match thumbhash::thumb_hash_to_average_rgba(hash) {
        Ok((red, green, blue, alpha)) => Some(
            (red.to_bits(), green.to_bits(), blue.to_bits(), alpha.to_bits()),
        ),
        Err(()) => None,
    }
}

/// Relies on DynamicImage::write_to with the PNG format: encoding to an
/// in-memory buffer is a pure function of the pixels and either succeeds or
/// reports an error value.
#[verifier::external_body]
pub(crate) fn encode_png_rgba(image: &RawImage) -> (r: Option<Vec<u8>>)
    requires
        image.wf(),
    ensures
        match r {
            Some(b) => png_encoded_of(image.width as int, image.height as int, image.pixels@)
                == Some(b@),
            None => png_encoded_of(image.width as int, image.height as int, image.pixels@)
                is None,
        },
{
    let buffer: image::RgbaImage = image::ImageBuffer::from_raw(
        image.width,
        image.height,
        image.pixels.clone(),
    ).unwrap();
    let dynamic = image::DynamicImage::ImageRgba8(buffer);
    let mut cursor = std::io::Cursor::new(Vec::new());
    match dynamic.write_to(&mut cursor, image::ImageFormat::Png) {
        Ok(()) => Some(cursor.into_inner()),
        Err(_) => None,
    }
}

/// Relies on image::codecs::jpeg::JpegEncoder at the given quality, after
/// ImageBuffer::to_rgb8 drops the alpha channel: encoding to an in-memory
/// buffer is a pure function of the pixels and quality and either succeeds
/// or reports an error value.
#[verifier::external_body]
pub(crate) fn encode_jpeg_rgba(image: &RawImage, quality: u8) -> (r: Option<Vec<u8>>)
    requires
        image.wf(),
    ensures
        match r {
            Some(b) => jpeg_encoded_of(
                image.width as int,
                image.height as int,
                image.pixels@,
                quality,
            ) == Some(b@),
            None => jpeg_encoded_of(
                image.width as int,
                image.height as int,
                image.pixels@,
                quality,
            ) is None,
        },
{
    let buffer: image::RgbaImage = image::ImageBuffer::from_raw(
        image.width,
        image.height,
        image.pixels.clone(),
    ).unwrap();
    let rgb = image::DynamicImage::ImageRgba8(buffer).to_rgb8();
    let mut cursor = std::io::Cursor::new(Vec::new());
    let encoder = image::codecs::jpeg::JpegEncoder::new_with_quality(&mut cursor, quality);
    match rgb.write_with_encoder(encoder) {
        Ok(()) => Some(cursor.into_inner()),
        Err(_) => None,
    }
}

/// Relies on base64's STANDARD_NO_PAD engine: the encoding depends on the
/// bytes alone and its documented unpadded length is four thirds of the
/// input length, rounded up. The length bound keeps that size computable.
#[verifier::external_body]
pub(crate) fn base64_no_pad(bytes: &[u8]) -> (r: String)
    requires
        bytes@.len() <= usize::MAX as int / 2,
    ensures
        r@ == base64_of(bytes@),
        r@.len() == (4 * bytes@.len() + 2) / 3,
{
    base64::engine::general_purpose::STANDARD_NO_PAD.encode(bytes)
}

/// Relies on xxhash_rust::const_xxh3::xxh3_64: the hash depends on the
/// bytes alone.
#[verifier::external_body]
pub(crate) fn xxh3_hash64(bytes: &[u8]) -> (r: u64)
    ensures
        r == xxh3_of(bytes@),
{
    xxhash_rust::const_xxh3::xxh3_64(bytes)
}

} // verus!

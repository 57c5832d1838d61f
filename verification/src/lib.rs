pub mod color;
pub mod externals;
pub mod fit;
pub mod hexfmt;
pub mod image_utilities;

use vstd::prelude::*;

use crate::color::{quantize_bits, rgba_to_hex, spec_rgba_hex};
use crate::externals::{
    average_bits_of, decode_rgba, decoded_rgba_of, reconstructed_of, resampled_of, sniff_format,
    sniffed_format_of, thumb_hash_average_bits, thumb_hash_bytes, thumb_hash_of,
    thumb_hash_preview, xxh3_hash64, xxh3_of,
};
use crate::hexfmt::spec_hex;
use crate::image_utilities::{
    image_to_base64, image_to_bytes, resample_fits, resize_image, spec_data_uri, spec_encoded,
    spec_mime, ImageKind,
};

verus! {

/// Side length of the box the input is shrunk into before hashing.
pub const THUMBNAIL_BOX: u32 = 100;

/// How many low bits of the 64-bit content hash are discarded before the
/// fingerprint is formatted.
pub const BITS_TO_POP: u32 = 16;

/// A decoded raster image: RGBA8 pixels, row-major, four bytes per pixel.
pub struct RawImage {
    pub width: u32,
    pub height: u32,
    pub pixels: Vec<u8>,
}

impl RawImage {
    /// The pixel buffer holds exactly one RGBA quadruple per pixel.
    pub open spec fn wf(&self) -> bool {
        self.pixels@.len() == self.width * self.height * 4
    }
}

/// Width, height and MIME type of the original image.
#[derive(Debug, PartialEq, Eq)]
pub struct ImageMetadata {
    pub width: u32,
    pub height: u32,
    pub format: String,
}

/// The fields of a successful placeholder computation.
#[derive(Debug, PartialEq, Eq)]
pub struct PlaceholderSuccess {
    pub average: String,
    pub base64: String,
    pub metadata: ImageMetadata,
}

/// Outcome of the placeholder pipeline: either every success field is
/// populated, or a single error message is; never a mix of the two.
#[derive(Debug, PartialEq, Eq)]
pub enum PlaceholderResult {
    Success(PlaceholderSuccess),
    Failure(String),
}

/// The mathematical value of a PlaceholderResult.
pub enum PlaceholderModel {
    Success { average: Seq<char>, base64: Seq<char>, width: u32, height: u32, format: Seq<char> },
    Failure { error: Seq<char> },
}

impl View for PlaceholderResult {
    type V = PlaceholderModel;

    open spec fn view(&self) -> PlaceholderModel {
        match self {
            PlaceholderResult::Success(s) => PlaceholderModel::Success {
                average: s.average@,
                base64: s.base64@,
                width: s.metadata.width,
                height: s.metadata.height,
                format: s.metadata.format@,
            },
            PlaceholderResult::Failure(e) => PlaceholderModel::Failure { error: e@ },
        }
    }
}

/// A failed placeholder result carrying the given message.
pub fn error_result(message: &str) -> (r: PlaceholderResult)
    ensures
        r@ == (PlaceholderModel::Failure { error: message@ }),
{
    PlaceholderResult::Failure(message.to_owned())
}

/// What the placeholder pipeline returns for the given input bytes, step by
/// step: decode, shrink into the hash box, hash, extract the average colour,
/// reconstruct the preview, re-encode it in the sniffed source format, and
/// wrap it as a data URI. The first failing step names the result.
pub open spec fn spec_placeholder(bytes: Seq<u8>) -> PlaceholderModel {
    match decoded_rgba_of(bytes) {
        None => PlaceholderModel::Failure { error: "Unable to read input image bytes."@ },
        Some(img) => if img.0 == 0 || img.1 == 0 {
            PlaceholderModel::Failure { error: "Unable to read input image bytes."@ }
        } else if !resample_fits(
            img.0 as int,
            img.1 as int,
            THUMBNAIL_BOX as int,
            THUMBNAIL_BOX as int,
        ) {
            PlaceholderModel::Failure { error: "Image dimensions too large."@ }
        } else {
            let hash = thumb_hash_of(
                THUMBNAIL_BOX as int,
                THUMBNAIL_BOX as int,
                resampled_of(
                    img.0 as int,
                    img.1 as int,
                    img.2,
                    THUMBNAIL_BOX as int,
                    THUMBNAIL_BOX as int,
                ),
            );
            match average_bits_of(hash) {
                None => PlaceholderModel::Failure {
                    error: "Unable to determine image average rgba hex value"@,
                },
                Some(c) => match reconstructed_of(hash) {
                    None => PlaceholderModel::Failure {
                        error: "Unable to reconstruct placeholder preview."@,
                    },
                    Some(preview) => match sniffed_format_of(bytes) {
                        ImageKind::Unsupported => PlaceholderModel::Failure {
                            error: "Image format not currently supported."@,
                        },
                        kind => match spec_encoded(
                            kind,
                            preview.0 as int,
                            preview.1 as int,
                            preview.2,
                        ) {
                            None => PlaceholderModel::Failure {
                                error: "Error generating image base64"@,
                            },
                            Some(encoded) => if encoded.len() > usize::MAX as int / 2 {
                                PlaceholderModel::Failure {
                                    error: "Error generating image base64"@,
                                }
                            } else {
                                PlaceholderModel::Success {
                                    average: spec_rgba_hex(
                                        quantize_bits(c.0),
                                        quantize_bits(c.1),
                                        quantize_bits(c.2),
                                        quantize_bits(c.3),
                                    ),
                                    base64: spec_data_uri(kind, encoded),
                                    width: img.0,
                                    height: img.1,
                                    format: match spec_mime(kind) {
                                        Some(m) => m,
                                        None => Seq::<char>::empty(),
                                    },
                                }
                            },
                        },
                    },
                },
            }
        },
    }
}

/// Law: for every input, the placeholder result is exactly one of a success
/// record, which carries all of the average colour, the data URI and the
/// metadata, or an error record carrying only the message; never a mix.
pub proof fn lemma_placeholder_result_exclusive(bytes: Seq<u8>)
    ensures
        spec_placeholder(bytes) is Success <==> !(spec_placeholder(bytes) is Failure),
{
}

/// Computes a compact visual placeholder for the image in the given bytes:
/// a blurred preview re-encoded in the source format and wrapped as a
/// base64 data URI, the average colour as a "#rrggbbaa" string, and the
/// original dimensions with their MIME type. Exactly one failing step, if
/// any, is reported as the error, and no success field is then populated.
pub fn get_image_placeholder(image_bytes: &[u8]) -> (r: PlaceholderResult)
    ensures
        r@ == spec_placeholder(image_bytes@),
{
    let image = match decode_rgba(image_bytes) {
        Some(img) => img,
        None => {
            return error_result("Unable to read input image bytes.");
        },
    };
    if image.width == 0 || image.height == 0 {
        return error_result("Unable to read input image bytes.");
    }
    let resized = match resize_image(
        &image,
        Some(THUMBNAIL_BOX),
        Some(THUMBNAIL_BOX),
        Some("clip"),
    ) {
        Some(t) => t,
        None => {
            return error_result("Image dimensions too large.");
        },
    };
    let (thumb_w, thumb_h, shrunk) = resized;
    let hash = thumb_hash_bytes(thumb_w as usize, thumb_h as usize, &shrunk.pixels);
    let average = match thumb_hash_average_bits(&hash) {
        Some(c) => rgba_to_hex(c.0, c.1, c.2, c.3),
        None => {
            return error_result("Unable to determine image average rgba hex value");
        },
    };
    let preview = match thumb_hash_preview(&hash) {
        Some(p) => p,
        None => {
            return error_result("Unable to reconstruct placeholder preview.");
        },
    };
    let (preview_w, preview_h, preview_pixels) = preview;
    let kind = sniff_format(image_bytes);
    let mime = match kind.mime_type() {
        Some(m) => m,
        None => {
            return error_result("Image format not currently supported.");
        },
    };
    let preview_image = RawImage {
        width: preview_w as u32,
        height: preview_h as u32,
        pixels: preview_pixels,
    };
    let encoded = match image_to_bytes(&preview_image, kind) {
        Some(b) => b,
        None => {
            return error_result("Error generating image base64");
        },
    };
    if encoded.len() > usize::MAX / 2 {
        return error_result("Error generating image base64");
    }
    let uri = match image_to_base64(encoded.as_slice(), kind) {
        Some(u) => u,
        None => {
            return error_result("Error generating image base64");
        },
    };
    PlaceholderResult::Success(
        PlaceholderSuccess {
            average,
            base64: uri,
            metadata: ImageMetadata {
                width: image.width,
                height: image.height,
                format: mime.to_owned(),
            },
        },
    )
}

/// Caller-supplied options for the resize endpoint.
pub struct ResizeImageOptions {
    pub width: Option<u32>,
    pub height: Option<u32>,
    pub fit: Option<String>,
}

/// Outcome of the resize endpoint: either the encoded bytes with their MIME
/// type, or a single error message; never a mix of the two.
#[derive(Debug, PartialEq, Eq)]
pub enum ResizeResult {
    Success { image_bytes: Vec<u8>, mime_type: String },
    Failure(String),
}

/// The mathematical value of a ResizeResult.
pub enum ResizeModel {
    Success { image_bytes: Seq<u8>, mime_type: Seq<char> },
    Failure { error: Seq<char> },
}

impl View for ResizeResult {
    type V = ResizeModel;

    open spec fn view(&self) -> ResizeModel {
        match self {
            ResizeResult::Success { image_bytes, mime_type } => ResizeModel::Success {
                image_bytes: image_bytes@,
                mime_type: mime_type@,
            },
            ResizeResult::Failure(e) => ResizeModel::Failure { error: e@ },
        }
    }
}

/// A failed resize result carrying the given message.
pub fn resize_error_result(message: &str) -> (r: ResizeResult)
    ensures
        r@ == (ResizeModel::Failure { error: message@ }),
{
    ResizeResult::Failure(message.to_owned())
}

/// The view of an optional owned token.
pub open spec fn option_string_view(fit: Option<String>) -> Option<Seq<char>> {
    match fit {
        None => None,
        Some(s) => Some(s@),
    }
}

/// What the resize endpoint returns for the given input bytes and options:
/// decode, resize to the fit calculator's dimensions, sniff the source
/// format, and re-encode the resized pixels in it. The first failing step
/// names the result.
pub open spec fn spec_resize(
    bytes: Seq<u8>,
    width: Option<u32>,
    height: Option<u32>,
    fit: Option<Seq<char>>,
) -> ResizeModel {
    match decoded_rgba_of(bytes) {
        None => ResizeModel::Failure { error: "Unable to read input image bytes."@ },
        Some(img) => if img.0 == 0 || img.1 == 0 {
            ResizeModel::Failure { error: "Unable to read input image bytes."@ }
        } else {
            let dims = crate::fit::spec_dimensions(
                img.0 as int,
                img.1 as int,
                width,
                height,
                crate::fit::spec_fit_mode(fit),
            );
            if !resample_fits(img.0 as int, img.1 as int, dims.0, dims.1) {
                ResizeModel::Failure { error: "Image dimensions too large."@ }
            } else {
                let resized = resampled_of(img.0 as int, img.1 as int, img.2, dims.0, dims.1);
                match sniffed_format_of(bytes) {
                    ImageKind::Unsupported => ResizeModel::Failure {
                        error: "Unsupported image format"@,
                    },
                    kind => match spec_encoded(kind, dims.0, dims.1, resized) {
                        None => ResizeModel::Failure { error: "Unable to encode output image."@ },
                        Some(encoded) => ResizeModel::Success {
                            image_bytes: encoded,
                            mime_type: match spec_mime(kind) {
                                Some(m) => m,
                                None => Seq::<char>::empty(),
                            },
                        },
                    },
                }
            }
        },
    }
}

/// Resizes the image in the given bytes to the box and fit mode the options
/// ask for and re-encodes it in its own container format, returning the raw
/// encoded bytes with their MIME type. Exactly one failing step, if any, is
/// reported as the error, and no success field is then populated.
pub fn get_resized_image(image_bytes: &[u8], options: ResizeImageOptions) -> (r: ResizeResult)
    ensures
        r@ == spec_resize(image_bytes@, options.width, options.height, option_string_view(options.fit)),
{
    let image = match decode_rgba(image_bytes) {
        Some(img) => img,
        None => {
            return resize_error_result("Unable to read input image bytes.");
        },
    };
    if image.width == 0 || image.height == 0 {
        return resize_error_result("Unable to read input image bytes.");
    }
    let fit_token: Option<&str> = match &options.fit {
        Some(s) => Some(s.as_str()),
        None => None,
    };
    let resized = match resize_image(&image, options.width, options.height, fit_token) {
        Some(t) => t,
        None => {
            return resize_error_result("Image dimensions too large.");
        },
    };
    let (_, _, resized_image) = resized;
    let kind = sniff_format(image_bytes);
    let mime = match kind.mime_type() {
        Some(m) => m,
        None => {
            return resize_error_result("Unsupported image format");
        },
    };
    let encoded = match image_to_bytes(&resized_image, kind) {
        Some(b) => b,
        None => {
            return resize_error_result("Unable to encode output image.");
        },
    };
    ResizeResult::Success { image_bytes: encoded, mime_type: mime.to_owned() }
}

/// The content fingerprint of a byte buffer: the 64-bit XXH3 hash with its
/// low bits discarded, in lowercase hexadecimal without leading zeroes.
pub open spec fn spec_fingerprint(bytes: Seq<u8>) -> Seq<char> {
    spec_hex((xxh3_of(bytes) >> BITS_TO_POP) as nat)
}

/// Law: the fingerprint is a pure function of the input bytes; equal byte
/// buffers always carry equal fingerprints.
pub proof fn lemma_fingerprint_deterministic(a: Seq<u8>, b: Seq<u8>)
    requires
        a == b,
    ensures
        spec_fingerprint(a) == spec_fingerprint(b),
{
}

/// Computes the content fingerprint of the given bytes, for cache keying:
/// deterministic, with no error path.
pub fn input_image_hash(image_bytes: &[u8]) -> (r: String)
    ensures
        r@ == spec_fingerprint(image_bytes@),
{
    let hash = xxh3_hash64(image_bytes);
    crate::hexfmt::u64_hex(hash >> BITS_TO_POP)
}

} // verus!

use vstd::prelude::*;
use vstd::string::StringExecFns;

use crate::externals::{
    base64_no_pad, base64_of, encode_jpeg_rgba, encode_png_rgba, jpeg_encoded_of, png_encoded_of,
};
use crate::fit::{
    compute_dimensions, option_str_view, parse_fit_mode, spec_dimensions, spec_fit_mode,
};
use crate::RawImage;

verus! {

/// JPEG re-encoding quality used throughout the library.
pub const JPEG_QUALITY: u8 = 90;

/// Image container formats the library re-encodes into, collapsed onto the
/// two it supports.
#[derive(Clone, Copy, Debug, PartialEq, Eq, Structural)]
pub enum ImageKind {
    Png,
    Jpeg,
    Unsupported,
}

/// The MIME type of a supported format.
pub open spec fn spec_mime(kind: ImageKind) -> Option<Seq<char>> {
    match kind {
        ImageKind::Png => Some("image/png"@),
        ImageKind::Jpeg => Some("image/jpeg"@),
        ImageKind::Unsupported => None,
    }
}

impl ImageKind {
    /// The MIME type of this format, for the supported formats.
    pub fn mime_type(&self) -> (r: Option<&'static str>)
        ensures
            match r {
                Some(s) => spec_mime(*self) == Some(s@),
                None => spec_mime(*self) is None && *self == ImageKind::Unsupported,
            },
    {
        match self {
            ImageKind::Png => Some("image/png"),
            ImageKind::Jpeg => Some("image/jpeg"),
            ImageKind::Unsupported => None,
        }
    }
}

/// Whether the resampler's output and working buffers for these dimensions
/// fit in the address space: a machine limit, not a property of the images.
pub open spec fn resample_fits(iw: int, ih: int, ow: int, oh: int) -> bool {
    ow * oh * 4 <= usize::MAX && ow * ih * 4 <= usize::MAX && oh * iw * 4 <= usize::MAX
}

/// Decides resample_fits with machine arithmetic.
fn resample_guard(iw: u32, ih: u32, ow: u32, oh: u32) -> (r: bool)
    ensures
        r == resample_fits(iw as int, ih as int, ow as int, oh as int),
{
    proof {
        assert(ow as int * oh as int <= 0xffff_ffff * 0xffff_ffff && ow as int * ih as int
            <= 0xffff_ffff * 0xffff_ffff && oh as int * iw as int <= 0xffff_ffff * 0xffff_ffff)
            by (nonlinear_arith)
            requires
                ow as int <= 0xffff_ffff,
                oh as int <= 0xffff_ffff,
                iw as int <= 0xffff_ffff,
                ih as int <= 0xffff_ffff,
                0 <= ow as int,
                0 <= oh as int,
                0 <= iw as int,
                0 <= ih as int,
        ;
    }
    let limit: u128 = usize::MAX as u128;
    (ow as u128) * (oh as u128) * 4 <= limit && (ow as u128) * (ih as u128) * 4 <= limit && (
    oh as u128) * (iw as u128) * 4 <= limit
}

/// The encoding of an RGBA8 image in the given container format: PNG
/// losslessly, JPEG at the configured quality; other formats have none.
pub open spec fn spec_encoded(kind: ImageKind, w: int, h: int, rgba: Seq<u8>) -> Option<Seq<u8>> {
    match kind {
        ImageKind::Png => png_encoded_of(w, h, rgba),
        ImageKind::Jpeg => jpeg_encoded_of(w, h, rgba, JPEG_QUALITY),
        ImageKind::Unsupported => None,
    }
}

/// Resizes an image to the dimensions the fit calculator chooses for the
/// given optional target box and fit-mode token, returning the dimensions
/// actually used together with the resampled image. The source image is
/// left unmodified. None only when a pixel buffer for the chosen
/// dimensions could not fit in the address space.
pub fn resize_image(
    image: &RawImage,
    output_width: Option<u32>,
    output_height: Option<u32>,
    fit: Option<&str>,
) -> (r: Option<(u32, u32, RawImage)>)
    requires
        image.wf(),
        1 <= image.width,
        1 <= image.height,
    ensures
        ({
            let dims = spec_dimensions(
                image.width as int,
                image.height as int,
                output_width,
                output_height,
                spec_fit_mode(option_str_view(fit)),
            );
            match r {
                Some(t) => resample_fits(image.width as int, image.height as int, dims.0, dims.1)
                    && t.0 as int == dims.0 && t.1 as int == dims.1 && t.2.width == t.0
                    && t.2.height == t.1 && t.2.wf() && t.2.pixels@ == crate::externals::resampled_of(
                    image.width as int,
                    image.height as int,
                    image.pixels@,
                    dims.0,
                    dims.1,
                ),
                None => !resample_fits(image.width as int, image.height as int, dims.0, dims.1),
            }
        }),
{
    let mode = parse_fit_mode(fit);
    let (out_w, out_h) = compute_dimensions(
        image.width,
        image.height,
        output_width,
        output_height,
        mode,
    );
    if !resample_guard(image.width, image.height, out_w, out_h) {
        return None;
    }
    let pixels = crate::externals::resample_rgba(image, out_w, out_h);
    Some((out_w, out_h, RawImage { width: out_w, height: out_h, pixels }))
}

/// Encodes an RGBA8 image into the given container format. None exactly
/// when the format is unsupported or the encoder rejects the image.
pub fn image_to_bytes(image: &RawImage, kind: ImageKind) -> (r: Option<Vec<u8>>)
    requires
        image.wf(),
    ensures
        match r {
            Some(b) => spec_encoded(kind, image.width as int, image.height as int, image.pixels@)
                == Some(b@),
            None => spec_encoded(kind, image.width as int, image.height as int, image.pixels@)
                is None,
        },
{
    match kind {
        ImageKind::Png => encode_png_rgba(image),
        ImageKind::Jpeg => encode_jpeg_rgba(image, JPEG_QUALITY),
        ImageKind::Unsupported => None,
    }
}

/// The data-URI wrapping of already-encoded image bytes: the format's MIME
/// type and the unpadded base64 payload.
pub open spec fn spec_data_uri(kind: ImageKind, bytes: Seq<u8>) -> Seq<char>
    recommends
        kind != ImageKind::Unsupported,
{
    match spec_mime(kind) {
        Some(mime) => "data:"@ + mime + ";base64,"@ + base64_of(bytes),
        None => Seq::<char>::empty(),
    }
}

/// Wraps already-encoded image bytes as a base64 data URI carrying the
/// format's MIME type. None exactly when the format is unsupported.
pub fn image_to_base64(image_bytes: &[u8], kind: ImageKind) -> (r: Option<String>)
    requires
        image_bytes@.len() <= usize::MAX as int / 2,
    ensures
        match r {
            Some(s) => spec_mime(kind) is Some && s@ == spec_data_uri(kind, image_bytes@),
            None => kind == ImageKind::Unsupported,
        },
{
    let mime = match kind.mime_type() {
        Some(m) => m,
        None => {
            return None;
        },
    };
    let payload = base64_no_pad(image_bytes);
    let mut uri = "data:".to_owned();
    uri.append(mime);
    uri.append(";base64,");
    uri.append(payload.as_str());
    proof {
        assert(uri@ =~= spec_data_uri(kind, image_bytes@));
    }
    Some(uri)
}

} // verus!

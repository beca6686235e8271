//! The trusted boundary to the collaborator crates: pixel resampling and
//! image encoding (`image`), base64 text encoding (`base64`), and fresh
//! identifiers (`uuid`).  Everything here is believed, not verified; each
//! wrapper's documentation names the outside function it relies on.

use vstd::prelude::*;
use base64::Engine as _;
use crate::formats::{codec_code, CodecFormat};

verus! {

/// The pixel bytes produced by the image library's resampler for the given
/// source buffer, source dimensions, target dimensions and filter choice
/// (`fast` selects the triangle filter, otherwise Lanczos3).  The result is a
/// function of these arguments alone.
pub uninterp spec fn resampled_rgba(
    pixels: Seq<u8>,
    w: int,
    h: int,
    tw: int,
    th: int,
    fast: bool,
) -> Seq<u8>;

/// The byte stream produced by the image library's encoder for the given
/// pixel buffer, dimensions, codec tag (see `codec_code`) and quality.  The
/// JPEG codec consumes packed RGB bytes; all others consume RGBA bytes.
/// Codecs without a quality knob are tagged with quality 0.
pub uninterp spec fn encoded_image(
    pixels: Seq<u8>,
    w: int,
    h: int,
    codec: int,
    quality: int,
) -> Seq<u8>;

/// The standard padded base64 rendering of a byte string.
pub uninterp spec fn base64_of(bytes: Seq<u8>) -> Seq<char>;

/// The dimension bounds under which each codec accepts an encode of a fully
/// populated buffer written to an in-memory cursor, as the encoders' own
/// sources check them: PNG takes any non-zero dimensions; JPEG and GIF store
/// dimensions in two bytes and reject anything above 65535 per side; WebP
/// (lossless) stores them in fourteen bits and rejects anything above 16384;
/// BMP rejects an RGBA pixel payload whose file size leaves 32 bits.
pub open spec fn codec_accepts(codec: CodecFormat, w: int, h: int) -> bool {
    match codec {
        CodecFormat::Png => true,
        CodecFormat::Jpeg => w <= 65535 && h <= 65535,
        CodecFormat::Gif => w <= 65535 && h <= 65535,
        CodecFormat::WebP => w <= 16384 && h <= 16384,
        CodecFormat::Bmp => 4 * w * h + 122 <= u32::MAX,
    }
}

/// Relies on `image::imageops::resize`: resamples an RGBA buffer to exactly
/// `tw x th` pixels with the requested filter.  The returned buffer is fully
/// populated for the target dimensions.
#[verifier::external_body]
pub(crate) fn resample_rgba(pixels: &Vec<u8>, w: u32, h: u32, tw: u32, th: u32, fast: bool) -> (r:
    Vec<u8>)
    requires
        pixels@.len() == 4 * (w as int) * (h as int),
        w >= 1,
        h >= 1,
        tw >= 1,
        th >= 1,
        4 * (tw as int) * (th as int) <= usize::MAX,
    ensures
        r@ == resampled_rgba(pixels@, w as int, h as int, tw as int, th as int, fast),
        r@.len() == 4 * (tw as int) * (th as int),
{
    let buf = image::RgbaImage::from_raw(w, h, pixels.clone()).expect("buffer length mismatch");
    let filter = if fast {
        image::imageops::FilterType::Triangle
    } else {
        image::imageops::FilterType::Lanczos3
    };
    image::imageops::resize(&buf, tw, th, filter).into_raw()
}

/// Relies on `image::DynamicImage::write_to` with an in-memory cursor:
/// encodes an RGBA buffer as PNG, GIF, WebP (lossless) or BMP.  Each encoder
/// errors exactly on the dimension bounds of `codec_accepts` (its only
/// checks, the buffer length being exact and writes to a `Vec` cursor being
/// infallible), so success is owed within those bounds.
#[verifier::external_body]
pub(crate) fn encode_rgba(pixels: &Vec<u8>, w: u32, h: u32, fmt: &CodecFormat) -> (r: Result<
    Vec<u8>,
    String,
>)
    requires
        pixels@.len() == 4 * (w as int) * (h as int),
        w >= 1,
        h >= 1,
        !(*fmt is Jpeg),
    ensures
        r matches Ok(b) ==> b@ == encoded_image(pixels@, w as int, h as int, codec_code(*fmt), 0),
        r is Ok <==> codec_accepts(*fmt, w as int, h as int),
{
    let img = match image::RgbaImage::from_raw(w, h, pixels.clone()) {
        Some(b) => image::DynamicImage::ImageRgba8(b),
        None => return Err("buffer length mismatch".to_string()),
    };
    let out = match fmt {
        CodecFormat::Png => image::ImageOutputFormat::Png,
        CodecFormat::Gif => image::ImageOutputFormat::Gif,
        CodecFormat::WebP => image::ImageOutputFormat::WebP,
        _ => image::ImageOutputFormat::Bmp,
    };
    let mut bytes: Vec<u8> = Vec::new();
    match img.write_to(&mut std::io::Cursor::new(&mut bytes), out) {
        Ok(()) => Ok(bytes),
        Err(e) => Err(e.to_string()),
    }
}

/// Relies on `image::DynamicImage::write_to` with an in-memory cursor:
/// encodes a packed RGB buffer as JPEG at the given quality.  The encoder's
/// only error is a dimension that leaves the two-byte frame-header fields
/// (writes to a `Vec` cursor being infallible), so success is owed exactly
/// within the `codec_accepts` bounds.
#[verifier::external_body]
pub(crate) fn encode_rgb_jpeg(rgb: &Vec<u8>, w: u32, h: u32, quality: u8) -> (r: Result<
    Vec<u8>,
    String,
>)
    requires
        rgb@.len() == 3 * (w as int) * (h as int),
        w >= 1,
        h >= 1,
        1 <= quality <= 100,
    ensures
        r matches Ok(b) ==> b@ == encoded_image(
            rgb@,
            w as int,
            h as int,
            codec_code(CodecFormat::Jpeg),
            quality as int,
        ),
        r is Ok <==> codec_accepts(CodecFormat::Jpeg, w as int, h as int),
{
    let img = match image::RgbImage::from_raw(w, h, rgb.clone()) {
        Some(b) => image::DynamicImage::ImageRgb8(b),
        None => return Err("buffer length mismatch".to_string()),
    };
    let mut bytes: Vec<u8> = Vec::new();
    match img.write_to(&mut std::io::Cursor::new(&mut bytes), image::ImageOutputFormat::Jpeg(quality)) {
        Ok(()) => Ok(bytes),
        Err(e) => Err(e.to_string()),
    }
}

/// Relies on `base64::Engine::encode` with the `STANDARD` engine (padded)
/// and on `base64::encoded_len`: succeeds exactly when the encoded length
/// fits in `usize`, and then yields four output characters for every three
/// input bytes, rounded up to whole blocks.
#[verifier::external_body]
pub(crate) fn base64_encode(bytes: &Vec<u8>) -> (r: Option<String>)
    ensures
        r matches Some(s) ==> s@ == base64_of(bytes@) && s@.len() == 4 * ((bytes@.len() + 2) / 3),
        r is None <==> 4 * ((bytes@.len() + 2) / 3) > usize::MAX,
{
    match base64::encoded_len(bytes.len(), true) {
        Some(_) => Some(base64::engine::general_purpose::STANDARD.encode(bytes)),
        None => None,
    }
}

/// Relies on `uuid::Uuid::new_v4` and its `Display` form: a fresh random
/// identifier rendered in the hyphenated format of exactly 36 characters.
/// Being random, nothing more can be said of its content.
#[verifier::external_body]
pub(crate) fn new_unique_id() -> (r: String)
    ensures
        r@.len() == 36,
{
    uuid::Uuid::new_v4().to_string()
}

} // verus!

//! The preview generator: bounded-size renditions of a converted image for
//! display, and the standalone file-preview path keyed off a file's byte
//! size.

use vstd::prelude::*;
use crate::codec::{base64_of, encoded_image, resampled_rgba};
use crate::formats::{codec_code, spec_preview_prefix, CodecFormat, OutputFormat};
use crate::geometry::{clamp1, fit_dims, round_ratio};
use crate::image_data::{rgb_of, DecodedImage};
use crate::quality::{spec_file_preview_quality, spec_preview_quality};

verus! {

/// The post-conversion preview dimensions, by pixel count of the saved
/// image: a fifth over ten million pixels, three tenths over four million,
/// fitted within 1200 x 1200 when either side exceeds 1200, else unchanged.
pub open spec fn spec_preview_dims(w: int, h: int) -> (int, int) {
    let pc = w * h;
    if pc > 10000000 {
        (clamp1(round_ratio(w, 5)), clamp1(round_ratio(h, 5)))
    } else if pc > 4000000 {
        (clamp1(round_ratio(3 * w, 10)), clamp1(round_ratio(3 * h, 10)))
    } else if w > 1200 || h > 1200 {
        fit_dims(w, h, 1200, 1200)
    } else {
        (w, h)
    }
}

/// Whether the preview works on a resampled copy rather than the buffer
/// itself.
pub open spec fn spec_preview_resamples(w: int, h: int) -> bool {
    w * h > 4000000 || w > 1200 || h > 1200
}

/// The pixel buffer the preview encoder consumes.
pub open spec fn spec_preview_source(p: Seq<u8>, w: int, h: int) -> Seq<u8> {
    if spec_preview_resamples(w, h) {
        resampled_rgba(p, w, h, spec_preview_dims(w, h).0, spec_preview_dims(w, h).1, true)
    } else {
        p
    }
}

/// The codec a preview is encoded with, by target format: PNG targets keep
/// a PNG preview only for small images with an alpha channel, BMP and large
/// or opaque PNG targets degrade to JPEG, ICO and SVG previews are PNG.
pub open spec fn spec_preview_codec(f: OutputFormat, has_alpha: bool, pc: int) -> CodecFormat {
    match f {
        OutputFormat::JPEG => CodecFormat::Jpeg,
        OutputFormat::PNG => if has_alpha && pc < 1000000 {
            CodecFormat::Png
        } else {
            CodecFormat::Jpeg
        },
        OutputFormat::GIF => CodecFormat::Gif,
        OutputFormat::WEBP => CodecFormat::WebP,
        OutputFormat::BMP => CodecFormat::Jpeg,
        OutputFormat::ICO => CodecFormat::Png,
        OutputFormat::SVG => CodecFormat::Png,
    }
}

/// The encoded preview payload for a converted image.
pub open spec fn spec_preview_payload(
    p: Seq<u8>,
    w: int,
    h: int,
    f: OutputFormat,
    has_alpha: bool,
) -> Seq<u8> {
    let dims = spec_preview_dims(w, h);
    let src = spec_preview_source(p, w, h);
    let codec = spec_preview_codec(f, has_alpha, w * h);
    if codec is Jpeg {
        encoded_image(rgb_of(src), dims.0, dims.1, codec_code(codec), spec_preview_quality(w * h))
    } else {
        encoded_image(src, dims.0, dims.1, codec_code(codec), 0)
    }
}

/// The complete preview data URL for a converted image.
pub open spec fn spec_preview_data_url(
    p: Seq<u8>,
    w: int,
    h: int,
    f: OutputFormat,
    has_alpha: bool,
) -> Seq<char> {
    spec_preview_prefix(f) + base64_of(spec_preview_payload(p, w, h, f, has_alpha))
}

/// When deriving a preview succeeds: exactly when the preview codec accepts
/// the preview dimensions and the base64 text of the payload fits the
/// address space.
pub open spec fn spec_preview_succeeds(
    p: Seq<u8>,
    w: int,
    h: int,
    f: OutputFormat,
    has_alpha: bool,
) -> bool {
    let dims = spec_preview_dims(w, h);
    &&& crate::codec::codec_accepts(spec_preview_codec(f, has_alpha, w * h), dims.0, dims.1)
    &&& 4 * ((spec_preview_payload(p, w, h, f, has_alpha).len() + 2) / 3) <= usize::MAX
}

/// Exec form of `spec_preview_dims`.  The result never exceeds the source
/// dimensions unless both sides are bounded by 1200.
pub fn preview_dims(w: u32, h: u32) -> (r: (u32, u32))
    requires
        w >= 1,
        h >= 1,
    ensures
        (r.0 as int, r.1 as int) == spec_preview_dims(w as int, h as int),
        r.0 >= 1,
        r.1 >= 1,
        (r.0 <= w && r.1 <= h) || (r.0 <= 1200 && r.1 <= 1200),
{
    proof {
        vstd::arithmetic::mul::lemma_mul_upper_bound(
            w as int,
            u32::MAX as int,
            h as int,
            u32::MAX as int,
        );
        crate::geometry::lemma_round_ratio_shrinks(w as int, 1, 5);
        crate::geometry::lemma_round_ratio_shrinks(h as int, 1, 5);
        crate::geometry::lemma_round_ratio_shrinks(w as int, 3, 10);
        crate::geometry::lemma_round_ratio_shrinks(h as int, 3, 10);
        assert((w as int) * 1 == w as int && (h as int) * 1 == h as int);
        assert((w as int) * 3 == 3 * (w as int) && (h as int) * 3 == 3 * (h as int));
        crate::geometry::lemma_fit_dims_in_box(w as int, h as int, 1200, 1200);
    }
    let pc: u64 = (w as u64) * (h as u64);
    if pc > 10000000 {
        let pw: u64 = crate::geometry::round_ratio_u64(w as u64, 5);
        let ph: u64 = crate::geometry::round_ratio_u64(h as u64, 5);
        (
            if pw < 1 {
                1
            } else {
                pw as u32
            },
            if ph < 1 {
                1
            } else {
                ph as u32
            },
        )
    } else if pc > 4000000 {
        let pw: u64 = crate::geometry::round_ratio_u64(3 * (w as u64), 10);
        let ph: u64 = crate::geometry::round_ratio_u64(3 * (h as u64), 10);
        (
            if pw < 1 {
                1
            } else {
                pw as u32
            },
            if ph < 1 {
                1
            } else {
                ph as u32
            },
        )
    } else if w > 1200 || h > 1200 {
        crate::geometry::fit_dims_u32(w, h, 1200, 1200)
    } else {
        (w, h)
    }
}

/// Encodes a buffer with the given codec at the given quality, stripping
/// the alpha channel for JPEG.
pub(crate) fn encode_preview_payload(src: &Vec<u8>, pw: u32, ph: u32, codec: &CodecFormat, q: u8) -> (r:
    Result<Vec<u8>, String>)
    requires
        src@.len() == 4 * (pw as int) * (ph as int),
        pw >= 1,
        ph >= 1,
        1 <= q <= 100,
    ensures
        r matches Ok(b) ==> b@ == (if *codec is Jpeg {
            encoded_image(rgb_of(src@), pw as int, ph as int, codec_code(*codec), q as int)
        } else {
            encoded_image(src@, pw as int, ph as int, codec_code(*codec), 0)
        }),
        r is Ok <==> crate::codec::codec_accepts(*codec, pw as int, ph as int),
{
    proof {
        assert(4 * (pw as int) * (ph as int) == 4 * ((pw as int) * (ph as int)))
            by (nonlinear_arith);
        vstd::arithmetic::div_mod::lemma_fundamental_div_mod_converse_mod(
            4 * ((pw as int) * (ph as int)),
            4,
            (pw as int) * (ph as int),
            0,
        );
        vstd::arithmetic::div_mod::lemma_fundamental_div_mod_converse_div(
            4 * ((pw as int) * (ph as int)),
            4,
            (pw as int) * (ph as int),
            0,
        );
        assert(((pw as int) * (ph as int)) * 3 == 3 * ((pw as int) * (ph as int)))
            by (nonlinear_arith);
        assert(3 * ((pw as int) * (ph as int)) == 3 * (pw as int) * (ph as int))
            by (nonlinear_arith);
    }
    match codec {
        CodecFormat::Jpeg => {
            let rgb = crate::image_data::strip_alpha(src);
            crate::codec::encode_rgb_jpeg(&rgb, pw, ph, q)
        },
        _ => crate::codec::encode_rgba(src, pw, ph, codec),
    }
}

/// Derives the preview data URL for a converted image: scaled by the tier
/// table, encoded by the per-format preview codec at the size-dependent
/// quality, and embedded behind the target format's MIME prefix.  The
/// prefix policy is uniform over all targets: an SVG conversion therefore
/// gets PNG preview bytes behind the SVG MIME prefix, a deliberate choice.
/// Success is owed exactly under `spec_preview_succeeds`.
pub fn render_preview(img: &DecodedImage, f: &OutputFormat) -> (r: Result<String, String>)
    requires
        img.well_formed(),
    ensures
        r matches Ok(s) ==> s@ == spec_preview_data_url(
            img.pixels@,
            img.width as int,
            img.height as int,
            *f,
            img.color.spec_has_alpha(),
        ),
        r is Ok <==> spec_preview_succeeds(
            img.pixels@,
            img.width as int,
            img.height as int,
            *f,
            img.color.spec_has_alpha(),
        ),
{
    let ghost wi = img.width as int;
    let ghost hi = img.height as int;
    let (pw, ph) = preview_dims(img.width, img.height);
    let pc: u64 = img.pixel_count();
    let resamples: bool = pc > 4000000 || img.width > 1200 || img.height > 1200;
    let plen: usize = img.pixels.len();
    proof {
        assert(4 * (wi * hi) == 4 * wi * hi) by (nonlinear_arith);
        if pw <= img.width && ph <= img.height {
            assert((pw as int) * (ph as int) <= wi * hi) by (nonlinear_arith)
                requires
                    0 <= pw as int <= wi,
                    0 <= ph as int <= hi,
            ;
        } else {
            assert((pw as int) * (ph as int) <= 1440000) by (nonlinear_arith)
                requires
                    0 <= pw as int <= 1200,
                    0 <= ph as int <= 1200,
            ;
        }
        assert(4 * ((pw as int) * (ph as int)) == 4 * (pw as int) * (ph as int))
            by (nonlinear_arith);
    }
    let src: Vec<u8> = if resamples {
        crate::codec::resample_rgba(&img.pixels, img.width, img.height, pw, ph, true)
    } else {
        vstd::slice::slice_to_vec(img.pixels.as_slice())
    };
    let has_alpha = img.color.has_alpha();
    let q: u8 = if pc > 2000000 {
        60
    } else {
        75
    };
    let codec: CodecFormat = match f {
        OutputFormat::JPEG => CodecFormat::Jpeg,
        OutputFormat::PNG => if has_alpha && pc < 1000000 {
            CodecFormat::Png
        } else {
            CodecFormat::Jpeg
        },
        OutputFormat::GIF => CodecFormat::Gif,
        OutputFormat::WEBP => CodecFormat::WebP,
        OutputFormat::BMP => CodecFormat::Jpeg,
        OutputFormat::ICO => CodecFormat::Png,
        OutputFormat::SVG => CodecFormat::Png,
    };
    let payload = match encode_preview_payload(&src, pw, ph, &codec, q) {
        Ok(b) => b,
        Err(e) => {
            return Err(e);
        },
    };
    match crate::codec::base64_encode(&payload) {
        Some(b64) => Ok(String::from_str(f.preview_prefix()).concat(b64.as_str())),
        None => Err(String::from_str("preview data too large to embed")),
    }
}

} // verus!

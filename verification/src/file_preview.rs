//! The standalone file-preview path: derives a base64 data URL for an
//! existing image file, with size tiers keyed off the file's byte size
//! rather than its pixel count.

use vstd::prelude::*;
use crate::codec::{base64_of, encoded_image, resampled_rgba};
use crate::formats::{codec_code, CodecFormat};
use crate::geometry::{clamp1, round_ratio};
use crate::image_data::{rgb_of, DecodedImage};
use crate::quality::spec_file_preview_quality;

verus! {

/// Character-exact string equality.
pub fn str_eq(a: &str, b: &str) -> (r: bool)
    ensures
        r == (a@ == b@),
{
    let n = a.unicode_len();
    let m = b.unicode_len();
    if n != m {
        proof {
            assert(a@ != b@);
        }
        return false;
    }
    let mut i: usize = 0;
    while i < n
        invariant
            n == a@.len(),
            n == b@.len(),
            i <= n,
            forall|j: int| 0 <= j < i ==> a@[j] == b@[j],
        decreases n - i,
    {
        if a.get_char(i) != b.get_char(i) {
            proof {
                assert(a@ != b@);
            }
            return false;
        }
        i = i + 1;
    }
    proof {
        assert(a@ =~= b@);
    }
    true
}

/// The MIME type inferred from a file extension; unknown or missing
/// extensions fall back to JPEG.
pub open spec fn spec_mime_of(e: Seq<char>) -> Seq<char> {
    if e == "jpg"@ || e == "jpeg"@ {
        "image/jpeg"@
    } else if e == "png"@ {
        "image/png"@
    } else if e == "gif"@ {
        "image/gif"@
    } else if e == "webp"@ {
        "image/webp"@
    } else if e == "bmp"@ {
        "image/bmp"@
    } else if e == "ico"@ {
        "image/x-icon"@
    } else if e == "svg"@ {
        "image/svg+xml"@
    } else {
        "image/jpeg"@
    }
}

/// Exec form of `spec_mime_of` with the missing-extension fallback.
pub fn mime_for_extension(ext: Option<&str>) -> (m: &'static str)
    ensures
        m@ == (match ext {
            Some(e) => spec_mime_of(e@),
            None => "image/jpeg"@,
        }),
{
    match ext {
        None => "image/jpeg",
        Some(e) => {
            if str_eq(e, "jpg") || str_eq(e, "jpeg") {
                "image/jpeg"
            } else if str_eq(e, "png") {
                "image/png"
            } else if str_eq(e, "gif") {
                "image/gif"
            } else if str_eq(e, "webp") {
                "image/webp"
            } else if str_eq(e, "bmp") {
                "image/bmp"
            } else if str_eq(e, "ico") {
                "image/x-icon"
            } else if str_eq(e, "svg") {
                "image/svg+xml"
            } else {
                "image/jpeg"
            }
        },
    }
}

/// The file-preview dimensions, by file byte size: a fifth over 20 MiB,
/// three tenths over 5 MiB, else unchanged.
pub open spec fn spec_file_preview_dims(w: int, h: int, size: int) -> (int, int) {
    if size > 20971520 {
        (clamp1(round_ratio(w, 5)), clamp1(round_ratio(h, 5)))
    } else if size > 5242880 {
        (clamp1(round_ratio(3 * w, 10)), clamp1(round_ratio(3 * h, 10)))
    } else {
        (w, h)
    }
}

/// The buffer the file-preview encoder consumes.
pub open spec fn spec_file_preview_source(p: Seq<u8>, w: int, h: int, size: int) -> Seq<u8> {
    if size > 5242880 {
        resampled_rgba(
            p,
            w,
            h,
            spec_file_preview_dims(w, h, size).0,
            spec_file_preview_dims(w, h, size).1,
            true,
        )
    } else {
        p
    }
}

/// The codec a file preview is encoded with, by MIME type: PNG files over
/// one mebibyte degrade to JPEG, icon and SVG files render as PNG, GIF and
/// WEBP keep their codec, everything else is JPEG.
pub open spec fn spec_file_preview_codec(mime: Seq<char>, size: int) -> CodecFormat {
    if mime == "image/png"@ {
        if size > 1048576 {
            CodecFormat::Jpeg
        } else {
            CodecFormat::Png
        }
    } else if mime == "image/gif"@ {
        CodecFormat::Gif
    } else if mime == "image/webp"@ {
        CodecFormat::WebP
    } else if mime == "image/x-icon"@ || mime == "image/svg+xml"@ {
        CodecFormat::Png
    } else {
        CodecFormat::Jpeg
    }
}

/// The encoded file-preview payload.
pub open spec fn spec_file_preview_payload(
    p: Seq<u8>,
    w: int,
    h: int,
    size: int,
    mime: Seq<char>,
) -> Seq<u8> {
    let dims = spec_file_preview_dims(w, h, size);
    let src = spec_file_preview_source(p, w, h, size);
    let codec = spec_file_preview_codec(mime, size);
    if codec is Jpeg {
        encoded_image(rgb_of(src), dims.0, dims.1, codec_code(codec), spec_file_preview_quality(size))
    } else {
        encoded_image(src, dims.0, dims.1, codec_code(codec), 0)
    }
}

/// When deriving a file preview succeeds: exactly when the MIME-derived
/// codec accepts the preview dimensions and the base64 text of the payload
/// fits the address space.
pub open spec fn spec_file_preview_succeeds(
    p: Seq<u8>,
    w: int,
    h: int,
    size: int,
    mime: Seq<char>,
) -> bool {
    let dims = spec_file_preview_dims(w, h, size);
    &&& crate::codec::codec_accepts(spec_file_preview_codec(mime, size), dims.0, dims.1)
    &&& 4 * ((spec_file_preview_payload(p, w, h, size, mime).len() + 2) / 3) <= usize::MAX
}

/// The complete file-preview data URL.
pub open spec fn spec_file_preview_data_url(
    p: Seq<u8>,
    w: int,
    h: int,
    size: int,
    mime: Seq<char>,
) -> Seq<char> {
    "data:"@ + mime + ";base64,"@ + base64_of(spec_file_preview_payload(p, w, h, size, mime))
}

/// Exec form of `spec_file_preview_dims`: never enlarges either dimension.
fn file_preview_dims(w: u32, h: u32, size: u64) -> (r: (u32, u32))
    requires
        w >= 1,
        h >= 1,
    ensures
        (r.0 as int, r.1 as int) == spec_file_preview_dims(w as int, h as int, size as int),
        1 <= r.0 <= w,
        1 <= r.1 <= h,
{
    proof {
        crate::geometry::lemma_round_ratio_shrinks(w as int, 1, 5);
        crate::geometry::lemma_round_ratio_shrinks(h as int, 1, 5);
        crate::geometry::lemma_round_ratio_shrinks(w as int, 3, 10);
        crate::geometry::lemma_round_ratio_shrinks(h as int, 3, 10);
        assert((w as int) * 1 == w as int && (h as int) * 1 == h as int);
        assert((w as int) * 3 == 3 * (w as int) && (h as int) * 3 == 3 * (h as int));
    }
    if size > 20971520 {
        let pw: u64 = crate::geometry::round_ratio_u64(w as u64, 5);
        let ph: u64 = crate::geometry::round_ratio_u64(h as u64, 5);
        (
            if pw < 1 {
                1
            } else {
                pw as u32
            },
            if ph < 1 {
                1
            } else {
                ph as u32
            },
        )
    } else if size > 5242880 {
        let pw: u64 = crate::geometry::round_ratio_u64(3 * (w as u64), 10);
        let ph: u64 = crate::geometry::round_ratio_u64(3 * (h as u64), 10);
        (
            if pw < 1 {
                1
            } else {
                pw as u32
            },
            if ph < 1 {
                1
            } else {
                ph as u32
            },
        )
    } else {
        (w, h)
    }
}

/// Derives the file-preview data URL for a decoded image: scaled by the
/// byte-size tiers, encoded by the MIME-derived codec at the size-tier
/// quality, and embedded behind its own MIME prefix.
pub fn get_image_base64_core(img: &DecodedImage, file_size: u64, ext: Option<&str>) -> (r: Result<
    String,
    String,
>)
    requires
        img.well_formed(),
    ensures
        r matches Ok(s) ==> s@ == spec_file_preview_data_url(
            img.pixels@,
            img.width as int,
            img.height as int,
            file_size as int,
            match ext {
                Some(e) => spec_mime_of(e@),
                None => "image/jpeg"@,
            },
        ),
        r is Ok <==> spec_file_preview_succeeds(
            img.pixels@,
            img.width as int,
            img.height as int,
            file_size as int,
            match ext {
                Some(e) => spec_mime_of(e@),
                None => "image/jpeg"@,
            },
        ),
{
    let ghost wi = img.width as int;
    let ghost hi = img.height as int;
    let mime: &'static str = mime_for_extension(ext);
    let (pw, ph) = file_preview_dims(img.width, img.height, file_size);
    let plen: usize = img.pixels.len();
    proof {
        assert(4 * (wi * hi) == 4 * wi * hi) by (nonlinear_arith);
        assert((pw as int) * (ph as int) <= wi * hi) by (nonlinear_arith)
            requires
                0 <= pw as int <= wi,
                0 <= ph as int <= hi,
        ;
        assert(4 * ((pw as int) * (ph as int)) == 4 * (pw as int) * (ph as int))
            by (nonlinear_arith);
    }
    let src: Vec<u8> = if file_size > 5242880 {
        crate::codec::resample_rgba(&img.pixels, img.width, img.height, pw, ph, true)
    } else {
        vstd::slice::slice_to_vec(img.pixels.as_slice())
    };
    let q: u8 = if file_size > 20971520 {
        60
    } else if file_size > 5242880 {
        70
    } else {
        85
    };
    let codec: CodecFormat = if str_eq(mime, "image/png") {
        if file_size > 1048576 {
            CodecFormat::Jpeg
        } else {
            CodecFormat::Png
        }
    } else if str_eq(mime, "image/gif") {
        CodecFormat::Gif
    } else if str_eq(mime, "image/webp") {
        CodecFormat::WebP
    } else if str_eq(mime, "image/x-icon") {
        CodecFormat::Png
    } else if str_eq(mime, "image/svg+xml") {
        CodecFormat::Png
    } else {
        CodecFormat::Jpeg
    };
    let payload = match crate::preview::encode_preview_payload(&src, pw, ph, &codec, q) {
        Ok(b) => b,
        Err(e) => {
            return Err(e);
        },
    };
    match crate::codec::base64_encode(&payload) {
        Some(b64) => Ok(
            String::from_str("data:").concat(mime).concat(";base64,").concat(b64.as_str()),
        ),
        None => Err(String::from_str("preview data too large to embed")),
    }
}

} // verus!

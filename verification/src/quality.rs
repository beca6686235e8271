//! Quality selection for the lossy encoders: clamping of requested values,
//! the default, the adaptive JPEG policy, the WEBP large-image policy, and
//! the preview quality tiers.

use vstd::prelude::*;
use crate::advisor::spec_advised_quality;
use crate::image_data::DecodedImage;

verus! {

/// Requested quality values are confined to the valid lossy range 1..=100.
pub open spec fn clamp_quality(q: int) -> int {
    if q < 1 {
        1
    } else if q > 100 {
        100
    } else {
        q
    }
}

/// The effective requested quality: the clamped override, or the default 90.
pub open spec fn requested_quality(q: Option<u8>) -> int {
    match q {
        Some(v) => clamp_quality(v as int),
        None => 90,
    }
}

/// Exec form of `requested_quality`.
pub fn effective_quality(q: &Option<u8>) -> (r: u8)
    ensures
        r as int == requested_quality(*q),
        1 <= r <= 100,
{
    match q {
        Some(v) => if *v < 1 {
            1
        } else if *v > 100 {
            100
        } else {
            *v
        },
        None => 90,
    }
}

/// The quality given to the saved-file JPEG encoder: adaptively derived from
/// sampled color diversity above two million pixels, the plain requested
/// quality below.
pub open spec fn spec_jpeg_save_quality(p: Seq<u8>, w: int, h: int, requested: int) -> int {
    if w * h > 2000000 {
        spec_advised_quality(p, w, h, requested)
    } else {
        requested
    }
}

/// Exec form of `spec_jpeg_save_quality`, taking the raw quality override.
pub fn jpeg_save_quality(img: &DecodedImage, q: &Option<u8>) -> (r: u8)
    requires
        img.well_formed(),
    ensures
        r as int == spec_jpeg_save_quality(
            img.pixels@,
            img.width as int,
            img.height as int,
            requested_quality(*q),
        ),
        1 <= r <= 100,
{
    let rq = effective_quality(q);
    let pc = img.pixel_count();
    if pc > 2000000 {
        crate::advisor::advise_jpeg_quality(img, rq)
    } else {
        rq
    }
}

/// How a WEBP file is produced: through a JPEG intermediate at an adaptive
/// quality for images over one million pixels, by direct WEBP encoding
/// below.
#[derive(Debug, Clone, Copy, PartialEq, Eq, Structural)]
pub enum WebpPlan {
    JpegIntermediate(u8),
    DirectWebp,
}

/// The WEBP policy: over four million pixels a fixed quality of 90, over
/// one million the requested quality raised to at least 85, else direct
/// WEBP encoding.
pub open spec fn spec_webp_plan(pixel_count: int, requested: int) -> WebpPlan {
    if pixel_count > 1000000 {
        if pixel_count > 4000000 {
            WebpPlan::JpegIntermediate(90)
        } else {
            WebpPlan::JpegIntermediate(
                (if requested >= 85 {
                    requested
                } else {
                    85
                }) as u8,
            )
        }
    } else {
        WebpPlan::DirectWebp
    }
}

/// Exec form of `spec_webp_plan`, taking the raw quality override.
pub fn webp_save_plan(pixel_count: u64, q: &Option<u8>) -> (r: WebpPlan)
    ensures
        r == spec_webp_plan(pixel_count as int, requested_quality(*q)),
        r matches WebpPlan::JpegIntermediate(v) ==> 85 <= v <= 100,
{
    if pixel_count > 1000000 {
        if pixel_count > 4000000 {
            WebpPlan::JpegIntermediate(90)
        } else {
            let rq = effective_quality(q);
            let lifted = if rq >= 85 {
                rq
            } else {
                85
            };
            WebpPlan::JpegIntermediate(lifted)
        }
    } else {
        WebpPlan::DirectWebp
    }
}

/// The quality used for post-conversion lossy previews, by pixel count.
pub open spec fn spec_preview_quality(pixel_count: int) -> int {
    if pixel_count > 2000000 {
        60
    } else {
        75
    }
}

/// The quality used for file previews, by the source file's byte size:
/// 60 over 20 MiB, 70 over 5 MiB, else 85.
pub open spec fn spec_file_preview_quality(file_size: int) -> int {
    if file_size > 20971520 {
        60
    } else if file_size > 5242880 {
        70
    } else {
        85
    }
}

/// Every quality handed to a lossy encoder lies within 1..=100: the clamped
/// request, the adaptive JPEG choice, both WEBP choices, and the fixed
/// preview tiers.
pub proof fn lemma_lossy_quality_in_range(p: Seq<u8>, w: int, h: int, q: Option<u8>)
    requires
        w >= 1,
        h >= 1,
    ensures
        1 <= requested_quality(q) <= 100,
        1 <= spec_jpeg_save_quality(p, w, h, requested_quality(q)) <= 100,
        spec_webp_plan(w * h, requested_quality(q)) matches WebpPlan::JpegIntermediate(v) ==> 85
            <= v <= 100,
        1 <= spec_preview_quality(w * h) <= 100,
        1 <= spec_file_preview_quality(w * h) <= 100,
{
    if w * h > 2000000 {
        crate::advisor::lemma_advised_quality_range(p, w, h, requested_quality(q));
    }
}

} // verus!

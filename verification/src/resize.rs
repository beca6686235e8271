//! The resize engine: aspect-aware planning of target dimensions and the
//! resampling step itself.

use vstd::prelude::*;
use crate::geometry::{clamp1, fit_dims, round_ratio, fit_dims_u32, round_ratio_u64};
use crate::image_data::DecodedImage;
use crate::codec::resampled_rgba;

verus! {

/// A resize request: optional target width and height, and whether the
/// source aspect ratio is to be kept.  Both dimensions absent means "no
/// resize".
#[derive(Debug, Clone, Copy)]
pub struct ResizeOptions {
    pub width: Option<u32>,
    pub height: Option<u32>,
    pub keep_aspect_ratio: bool,
}

/// A planned dimension is confined to the representable range.
pub open spec fn cap_dim(v: int) -> int {
    if v > u32::MAX {
        u32::MAX as int
    } else {
        v
    }
}

/// The output dimensions of a resize, by which dimensions are set:
/// - both set, keep aspect: largest aspect-preserving fit inside the box;
/// - both set, no keep: exactly the requested box;
/// - one set, keep aspect: the other is scaled by the same ratio, rounded
///   to nearest;
/// - one set, no keep: the other is unchanged;
/// - neither set: unchanged.
/// Requested and computed dimensions are clamped to at least one pixel.
pub open spec fn plan_dims(ow: int, oh: int, o: ResizeOptions) -> (int, int) {
    match (o.width, o.height) {
        (Some(w), Some(h)) => {
            let bw = clamp1(w as int);
            let bh = clamp1(h as int);
            if o.keep_aspect_ratio {
                fit_dims(ow, oh, bw, bh)
            } else {
                (bw, bh)
            }
        },
        (Some(w), None) => {
            let bw = clamp1(w as int);
            if o.keep_aspect_ratio {
                (bw, cap_dim(clamp1(round_ratio(oh * bw, ow))))
            } else {
                (bw, oh)
            }
        },
        (None, Some(h)) => {
            let bh = clamp1(h as int);
            if o.keep_aspect_ratio {
                (cap_dim(clamp1(round_ratio(ow * bh, oh))), bh)
            } else {
                (ow, bh)
            }
        },
        (None, None) => (ow, oh),
    }
}

/// Computes the dimension derived from the kept aspect ratio:
/// `cap_dim(clamp1(round_ratio(a, b)))` for `a = other * set_dim`.
fn derived_dim(other: u32, set_dim: u32, orig: u32) -> (r: u32)
    requires
        orig >= 1,
    ensures
        r as int == cap_dim(clamp1(round_ratio((other as int) * (set_dim as int), orig as int))),
{
    proof {
        vstd::arithmetic::mul::lemma_mul_upper_bound(
            other as int,
            u32::MAX as int,
            set_dim as int,
            u32::MAX as int,
        );
        crate::geometry::lemma_round_ratio_le_plus1(
            (other as int) * (set_dim as int),
            orig as int,
        );
    }
    let q: u64 = round_ratio_u64((other as u64) * (set_dim as u64), orig as u64);
    if q < 1 {
        1
    } else if q > u32::MAX as u64 {
        u32::MAX
    } else {
        q as u32
    }
}

/// Plans the output dimensions for a resize request.
pub fn plan_resize(ow: u32, oh: u32, o: &ResizeOptions) -> (r: (u32, u32))
    requires
        ow >= 1,
        oh >= 1,
    ensures
        (r.0 as int, r.1 as int) == plan_dims(ow as int, oh as int, *o),
        r.0 >= 1,
        r.1 >= 1,
{
    match (o.width, o.height) {
        (Some(w), Some(h)) => {
            let bw = if w < 1 {
                1
            } else {
                w
            };
            let bh = if h < 1 {
                1
            } else {
                h
            };
            if o.keep_aspect_ratio {
                fit_dims_u32(ow, oh, bw, bh)
            } else {
                (bw, bh)
            }
        },
        (Some(w), None) => {
            let bw = if w < 1 {
                1
            } else {
                w
            };
            if o.keep_aspect_ratio {
                (bw, derived_dim(oh, bw, ow))
            } else {
                (bw, oh)
            }
        },
        (None, Some(h)) => {
            let bh = if h < 1 {
                1
            } else {
                h
            };
            if o.keep_aspect_ratio {
                (derived_dim(ow, bh, oh), bh)
            } else {
                (ow, bh)
            }
        },
        (None, None) => (ow, oh),
    }
}

/// Resizes a decoded image according to a resize request.  The only failure
/// is a planned output too large for the address space; with both target
/// dimensions absent the buffer is handed back unchanged.
pub fn resize_image(img: DecodedImage, o: &ResizeOptions) -> (r: Result<DecodedImage, ()>)
    requires
        img.well_formed(),
    ensures
        r matches Ok(out) ==> {
            &&& out.width as int == plan_dims(img.width as int, img.height as int, *o).0
            &&& out.height as int == plan_dims(img.width as int, img.height as int, *o).1
            &&& out.color == img.color
            &&& out.well_formed()
            &&& if o.width is None && o.height is None {
                out.pixels@ == img.pixels@
            } else {
                out.pixels@ == resampled_rgba(
                    img.pixels@,
                    img.width as int,
                    img.height as int,
                    out.width as int,
                    out.height as int,
                    false,
                )
            }
        },
        r is Err <==> 4 * plan_dims(img.width as int, img.height as int, *o).0 * plan_dims(
            img.width as int,
            img.height as int,
            *o,
        ).1 > usize::MAX && !(o.width is None && o.height is None),
{
    if o.width.is_none() && o.height.is_none() {
        return Ok(img);
    }
    let (tw, th) = plan_resize(img.width, img.height, o);
    proof {
        vstd::arithmetic::mul::lemma_mul_upper_bound(
            tw as int,
            u32::MAX as int,
            th as int,
            u32::MAX as int,
        );
    }
    let area: u128 = (tw as u128) * (th as u128);
    let needed: u128 = 4 * area;
    proof {
        assert(4 * (tw as int) * (th as int) == 4 * ((tw as int) * (th as int)))
            by (nonlinear_arith);
    }
    if needed > usize::MAX as u128 {
        return Err(());
    }
    let out_pixels = crate::codec::resample_rgba(&img.pixels, img.width, img.height, tw, th, false);
    Ok(DecodedImage { width: tw, height: th, color: img.color, pixels: out_pixels })
}

/// With keep-aspect set and only the width given, the computed height is
/// exactly `round(original_height * width / original_width)`, whenever that
/// value lies in the representable dimension range.
pub proof fn lemma_keep_aspect_width_only(ow: int, oh: int, o: ResizeOptions)
    requires
        ow >= 1,
        oh >= 1,
        o.keep_aspect_ratio,
        o.width matches Some(w) && w >= 1,
        o.height is None,
        1 <= round_ratio(oh * (o.width.unwrap() as int), ow) <= u32::MAX,
    ensures
        plan_dims(ow, oh, o).0 == o.width.unwrap() as int,
        plan_dims(ow, oh, o).1 == round_ratio(oh * (o.width.unwrap() as int), ow),
{
}

/// With keep-aspect set and only the height given, the computed width is
/// exactly `round(original_width * height / original_height)`, whenever that
/// value lies in the representable dimension range.
pub proof fn lemma_keep_aspect_height_only(ow: int, oh: int, o: ResizeOptions)
    requires
        ow >= 1,
        oh >= 1,
        o.keep_aspect_ratio,
        o.height matches Some(h) && h >= 1,
        o.width is None,
        1 <= round_ratio(ow * (o.height.unwrap() as int), oh) <= u32::MAX,
    ensures
        plan_dims(ow, oh, o).0 == round_ratio(ow * (o.height.unwrap() as int), oh),
        plan_dims(ow, oh, o).1 == o.height.unwrap() as int,
{
}

} // verus!

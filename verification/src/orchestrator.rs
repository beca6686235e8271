//! The conversion orchestrator: request validation, the format-specific
//! save paths, preview generation and result assembly.

use vstd::prelude::*;
use crate::codec::{base64_of, encoded_image, resampled_rgba};
use crate::formats::{codec_code, spec_extension, CodecFormat, OutputFormat};
use crate::ico::{ico_bytes, spec_snap_icon_size};
use crate::image_data::{rgb_of, DecodedImage};
use crate::paths::{spec_file_stem, spec_is_svg_path, spec_output_name};
use crate::quality::{requested_quality, spec_jpeg_save_quality, spec_webp_plan, WebpPlan};
use crate::resize::{plan_dims, ResizeOptions};
use crate::results::{
    failure_result, not_found_message, oversize_message, preview_failure_message,
    result_consistent, save_failure_message, spec_not_found_message, spec_oversize_message,
    spec_preview_failure_message, spec_success_message, spec_svg_input_message, success_message,
    svg_input_message, ImageConversionResult,
};

verus! {

/// Options accompanying a conversion request: an optional quality override
/// for lossy targets, and an optional resize request.
#[derive(Debug, Clone, Copy)]
pub struct ImageConversionOptions {
    pub quality: Option<u8>,
    pub resize: Option<ResizeOptions>,
}

/// The quality override carried by the options.
pub open spec fn spec_quality_opt(o: Option<ImageConversionOptions>) -> Option<u8> {
    match o {
        Some(io) => io.quality,
        None => None,
    }
}

/// The resize request carried by the options.
pub open spec fn spec_resize_opt(o: Option<ImageConversionOptions>) -> Option<ResizeOptions> {
    match o {
        Some(io) => io.resize,
        None => None,
    }
}

/// The icon side length requested through the resize width; 32 by default.
pub open spec fn spec_icon_target(o: Option<ImageConversionOptions>) -> int {
    match spec_resize_opt(o) {
        Some(ro) => match ro.width {
            Some(w) => w as int,
            None => 32,
        },
        None => 32,
    }
}

/// The source file size ceiling in bytes (100 MiB).
pub const SOURCE_SIZE_LIMIT: u64 = 104857600;

/// Validates a source file before any decode is attempted: it must exist,
/// lie at or under the 100 MiB ceiling, and not be an SVG file.  Each
/// rejection carries its dedicated message.
pub fn validate_source(exists: bool, file_size: u64, source_path: &str) -> (r: Option<
    ImageConversionResult,
>)
    ensures
        r is None <==> (exists && file_size <= 104857600 && !spec_is_svg_path(source_path@)),
        r matches Some(f) ==> !f.success && result_consistent(f),
        !exists ==> (r matches Some(f) && f.message@ == spec_not_found_message()),
        exists && file_size > 104857600 ==> (r matches Some(f) && f.message@
            == spec_oversize_message(file_size as int)),
        exists && file_size <= 104857600 && spec_is_svg_path(source_path@) ==> (r matches Some(f)
            && f.message@ == spec_svg_input_message()),
{
    if !exists {
        Some(failure_result(not_found_message()))
    } else if file_size > SOURCE_SIZE_LIMIT {
        Some(failure_result(oversize_message(file_size)))
    } else if crate::paths::is_svg_path(source_path) {
        Some(failure_result(svg_input_message()))
    } else {
        None
    }
}

/// A saved artifact: raw container bytes, or a textual document for SVG.
#[derive(Debug)]
pub enum RenderedOutput {
    Binary(Vec<u8>),
    Text(String),
}

/// The byte length of a saved artifact; text is counted in UTF-8 bytes.
pub open spec fn spec_output_len(o: RenderedOutput) -> int {
    match o {
        RenderedOutput::Binary(b) => b@.len() as int,
        RenderedOutput::Text(t) => (vstd::utf8::encode_utf8(t@).len() as usize) as int,
    }
}

/// The pixel buffer and dimensions a resize request leaves behind: with no
/// request (or an empty one) the buffer itself, otherwise the resample to
/// the planned dimensions.
pub open spec fn spec_resize_result(p: Seq<u8>, w: int, h: int, o: Option<ResizeOptions>) -> (
    Seq<u8>,
    int,
    int,
) {
    match o {
        None => (p, w, h),
        Some(ro) => if ro.width is None && ro.height is None {
            (p, w, h)
        } else {
            let dims = plan_dims(w, h, ro);
            (resampled_rgba(p, w, h, dims.0, dims.1, false), dims.0, dims.1)
        },
    }
}

/// The bytes of each binary save path: a direct encode for PNG, GIF and
/// BMP; the adaptive quality for JPEG; the JPEG intermediate or the direct
/// encode for WEBP by pixel count; the hand-built container for ICO.  SVG
/// saves text, not bytes (see `spec_svg_text`), so its arm is empty.
pub open spec fn spec_saved_bytes(
    rp: Seq<u8>,
    rw: int,
    rh: int,
    fmt: OutputFormat,
    rq: int,
    icon_target: int,
) -> Seq<u8> {
    match fmt {
        OutputFormat::PNG => encoded_image(rp, rw, rh, codec_code(CodecFormat::Png), 0),
        OutputFormat::JPEG => encoded_image(
            rgb_of(rp),
            rw,
            rh,
            codec_code(CodecFormat::Jpeg),
            spec_jpeg_save_quality(rp, rw, rh, rq),
        ),
        OutputFormat::GIF => encoded_image(rp, rw, rh, codec_code(CodecFormat::Gif), 0),
        OutputFormat::WEBP => match spec_webp_plan(rw * rh, rq) {
            WebpPlan::JpegIntermediate(v) => encoded_image(
                rgb_of(rp),
                rw,
                rh,
                codec_code(CodecFormat::Jpeg),
                v as int,
            ),
            WebpPlan::DirectWebp => encoded_image(rp, rw, rh, codec_code(CodecFormat::WebP), 0),
        },
        OutputFormat::BMP => encoded_image(rp, rw, rh, codec_code(CodecFormat::Bmp), 0),
        OutputFormat::ICO => ico_bytes(
            resampled_rgba(
                rp,
                rw,
                rh,
                spec_snap_icon_size(icon_target),
                spec_snap_icon_size(icon_target),
                false,
            ),
            spec_snap_icon_size(icon_target),
        ),
        OutputFormat::SVG => Seq::empty(),
    }
}

/// The SVG save text: the PNG encoding of the image embedded in the
/// document.
pub open spec fn spec_svg_text(rp: Seq<u8>, rw: int, rh: int) -> Seq<char> {
    crate::svg::svg_document(
        rw,
        rh,
        base64_of(encoded_image(rp, rw, rh, codec_code(CodecFormat::Png), 0)),
    )
}

/// For a resize request with keep-aspect set and only the width given, the
/// image the pipeline works on after resizing has exactly the requested
/// width, and its height is exactly `round(original_height * width /
/// original_width)`, whenever that value lies in the dimension range.
pub proof fn lemma_resize_result_keep_aspect_width(
    p: Seq<u8>,
    w: int,
    h: int,
    ro: ResizeOptions,
)
    requires
        w >= 1,
        h >= 1,
        ro.keep_aspect_ratio,
        ro.width matches Some(d) && d >= 1,
        ro.height is None,
        1 <= crate::geometry::round_ratio(h * (ro.width.unwrap() as int), w) <= u32::MAX,
    ensures
        spec_resize_result(p, w, h, Some(ro)).1 == ro.width.unwrap() as int,
        spec_resize_result(p, w, h, Some(ro)).2 == crate::geometry::round_ratio(
            h * (ro.width.unwrap() as int),
            w,
        ),
{
    crate::resize::lemma_keep_aspect_width_only(w, h, ro);
}

/// The symmetric law with only the height given: the resized image has
/// exactly the requested height, and its width is exactly
/// `round(original_width * height / original_height)`.
pub proof fn lemma_resize_result_keep_aspect_height(
    p: Seq<u8>,
    w: int,
    h: int,
    ro: ResizeOptions,
)
    requires
        w >= 1,
        h >= 1,
        ro.keep_aspect_ratio,
        ro.height matches Some(d) && d >= 1,
        ro.width is None,
        1 <= crate::geometry::round_ratio(w * (ro.height.unwrap() as int), h) <= u32::MAX,
    ensures
        spec_resize_result(p, w, h, Some(ro)).2 == ro.height.unwrap() as int,
        spec_resize_result(p, w, h, Some(ro)).1 == crate::geometry::round_ratio(
            w * (ro.height.unwrap() as int),
            h,
        ),
{
    crate::resize::lemma_keep_aspect_height_only(w, h, ro);
}

/// When rendering the saved artifact succeeds: the hand-built ICO container
/// always does; the codec paths succeed exactly within the codec's dimension
/// bounds (for WEBP, the bounds of whichever codec its plan selects); the
/// SVG path additionally needs the base64 text of the embedded PNG to fit
/// the address space.
pub open spec fn spec_output_succeeds(
    rp: Seq<u8>,
    rw: int,
    rh: int,
    fmt: OutputFormat,
    rq: int,
) -> bool {
    match fmt {
        OutputFormat::PNG => crate::codec::codec_accepts(CodecFormat::Png, rw, rh),
        OutputFormat::JPEG => crate::codec::codec_accepts(CodecFormat::Jpeg, rw, rh),
        OutputFormat::GIF => crate::codec::codec_accepts(CodecFormat::Gif, rw, rh),
        OutputFormat::WEBP => match spec_webp_plan(rw * rh, rq) {
            WebpPlan::JpegIntermediate(_) => crate::codec::codec_accepts(
                CodecFormat::Jpeg,
                rw,
                rh,
            ),
            WebpPlan::DirectWebp => crate::codec::codec_accepts(CodecFormat::WebP, rw, rh),
        },
        OutputFormat::BMP => crate::codec::codec_accepts(CodecFormat::Bmp, rw, rh),
        OutputFormat::ICO => true,
        OutputFormat::SVG => crate::codec::codec_accepts(CodecFormat::Png, rw, rh) && 4 * ((
        encoded_image(rp, rw, rh, codec_code(CodecFormat::Png), 0).len() + 2) / 3) <= usize::MAX,
    }
}

/// When applying the resize request succeeds: always, unless a requested
/// resample plans an output too large for the address space.
pub open spec fn spec_resize_feasible(w: int, h: int, o: Option<ResizeOptions>) -> bool {
    match o {
        None => true,
        Some(ro) => ro.width is None && ro.height is None || 4 * plan_dims(w, h, ro).0 * plan_dims(
            w,
            h,
            ro,
        ).1 <= usize::MAX,
    }
}

/// Renders the saved artifact for an already-resized image.  Success is
/// owed exactly under `spec_output_succeeds`: the hand-built ICO path
/// always, the codec paths within their dimension bounds; a failing codec
/// path reports the encoder's error text.
pub fn render_output(
    img: &DecodedImage,
    fmt: &OutputFormat,
    options: &Option<ImageConversionOptions>,
) -> (r: Result<RenderedOutput, String>)
    requires
        img.well_formed(),
    ensures
        r matches Ok(out) ==> (match *fmt {
            OutputFormat::SVG => out matches RenderedOutput::Text(t) && t@ == spec_svg_text(
                img.pixels@,
                img.width as int,
                img.height as int,
            ),
            _ => out matches RenderedOutput::Binary(b) && b@ == spec_saved_bytes(
                img.pixels@,
                img.width as int,
                img.height as int,
                *fmt,
                requested_quality(spec_quality_opt(*options)),
                spec_icon_target(*options),
            ),
        }),
        r is Ok <==> spec_output_succeeds(
            img.pixels@,
            img.width as int,
            img.height as int,
            *fmt,
            requested_quality(spec_quality_opt(*options)),
        ),
{
    let ghost wi = img.width as int;
    let ghost hi = img.height as int;
    proof {
        assert(4 * (wi * hi) == 4 * wi * hi) by (nonlinear_arith);
        vstd::arithmetic::div_mod::lemma_fundamental_div_mod_converse_mod(
            4 * (wi * hi),
            4,
            wi * hi,
            0,
        );
        vstd::arithmetic::div_mod::lemma_fundamental_div_mod_converse_div(
            4 * (wi * hi),
            4,
            wi * hi,
            0,
        );
        assert((wi * hi) * 3 == 3 * (wi * hi)) by (nonlinear_arith);
        assert(3 * (wi * hi) == 3 * wi * hi) by (nonlinear_arith);
    }
    let qopt: Option<u8> = match options {
        Some(o) => o.quality,
        None => None,
    };
    match fmt {
        OutputFormat::PNG => {
            match crate::codec::encode_rgba(&img.pixels, img.width, img.height, &CodecFormat::Png) {
                Ok(b) => Ok(RenderedOutput::Binary(b)),
                Err(e) => Err(e),
            }
        },
        OutputFormat::JPEG => {
            let q = crate::quality::jpeg_save_quality(img, &qopt);
            let rgb = crate::image_data::strip_alpha(&img.pixels);
            match crate::codec::encode_rgb_jpeg(&rgb, img.width, img.height, q) {
                Ok(b) => Ok(RenderedOutput::Binary(b)),
                Err(e) => Err(e),
            }
        },
        OutputFormat::GIF => {
            match crate::codec::encode_rgba(&img.pixels, img.width, img.height, &CodecFormat::Gif) {
                Ok(b) => Ok(RenderedOutput::Binary(b)),
                Err(e) => Err(e),
            }
        },
        OutputFormat::BMP => {
            match crate::codec::encode_rgba(&img.pixels, img.width, img.height, &CodecFormat::Bmp) {
                Ok(b) => Ok(RenderedOutput::Binary(b)),
                Err(e) => Err(e),
            }
        },
        OutputFormat::WEBP => {
            let pc: u64 = img.pixel_count();
            match crate::quality::webp_save_plan(pc, &qopt) {
                WebpPlan::JpegIntermediate(v) => {
                    let rgb = crate::image_data::strip_alpha(&img.pixels);
                    match crate::codec::encode_rgb_jpeg(&rgb, img.width, img.height, v) {
                        Ok(b) => Ok(RenderedOutput::Binary(b)),
                        Err(e) => Err(e),
                    }
                },
                WebpPlan::DirectWebp => {
                    match crate::codec::encode_rgba(
                        &img.pixels,
                        img.width,
                        img.height,
                        &CodecFormat::WebP,
                    ) {
                        Ok(b) => Ok(RenderedOutput::Binary(b)),
                        Err(e) => Err(e),
                    }
                },
            }
        },
        OutputFormat::ICO => {
            let target: u32 = match options {
                Some(o) => match &o.resize {
                    Some(ro) => match ro.width {
                        Some(wv) => wv,
                        None => 32,
                    },
                    None => 32,
                },
                None => 32,
            };
            Ok(RenderedOutput::Binary(crate::ico::encode_icon(img, target)))
        },
        OutputFormat::SVG => {
            let png = match crate::codec::encode_rgba(
                &img.pixels,
                img.width,
                img.height,
                &CodecFormat::Png,
            ) {
                Ok(b) => b,
                Err(e) => {
                    return Err(e);
                },
            };
            match crate::codec::base64_encode(&png) {
                Some(b64) => Ok(
                    RenderedOutput::Text(
                        crate::svg::build_svg_document(img.width, img.height, b64.as_str()),
                    ),
                ),
                None => Err(String::from_str("embedded image data too large")),
            }
        },
    }
}

/// Everything a successful conversion produces before the artifact reaches
/// disk: the unique output file name, the artifact itself, the preview data
/// URL when the preview step succeeded, and the result message.
#[derive(Debug)]
pub struct ConversionArtifact {
    pub file_name: String,
    pub output: RenderedOutput,
    pub preview: Option<String>,
    pub message: String,
}

impl ConversionArtifact {
    /// The artifact's size in bytes.
    pub fn output_byte_len(&self) -> (r: u64)
        ensures
            r as int == spec_output_len(self.output),
    {
        match &self.output {
            RenderedOutput::Binary(b) => b.len() as u64,
            RenderedOutput::Text(t) => t.as_str().len() as u64,
        }
    }
}

/// Converts a decoded image end to end: applies the resize request, renders
/// the saved artifact, derives the preview, and composes the message.  A
/// preview failure is absorbed: the artifact stands, the preview is absent
/// and the message documents the degradation.  Failures of the save path
/// itself come back as a failure record.
pub fn convert_decoded(
    img: DecodedImage,
    fmt: &OutputFormat,
    options: &Option<ImageConversionOptions>,
    source_path: &str,
    source_size: u64,
) -> (r: Result<ConversionArtifact, ImageConversionResult>)
    requires
        img.well_formed(),
    ensures
        r matches Err(f) ==> !f.success && result_consistent(f) && (exists|d: Seq<char>|
            f.message@ == crate::results::spec_save_failure_message(d)),
        r is Ok <==> ({
            let rr = spec_resize_result(
                img.pixels@,
                img.width as int,
                img.height as int,
                spec_resize_opt(*options),
            );
            spec_resize_feasible(img.width as int, img.height as int, spec_resize_opt(*options))
                && spec_output_succeeds(
                rr.0,
                rr.1,
                rr.2,
                *fmt,
                requested_quality(spec_quality_opt(*options)),
            )
        }),
        r matches Ok(a) ==> ({
            let rr = spec_resize_result(
                img.pixels@,
                img.width as int,
                img.height as int,
                spec_resize_opt(*options),
            );
            &&& (exists|uid: Seq<char>|
                uid.len() == 36 && a.file_name@ == spec_output_name(
                    spec_file_stem(source_path@),
                    uid,
                    spec_extension(*fmt),
                ))
            &&& (match *fmt {
                OutputFormat::SVG => a.output matches RenderedOutput::Text(t) && t@
                    == spec_svg_text(rr.0, rr.1, rr.2),
                _ => a.output matches RenderedOutput::Binary(b) && b@ == spec_saved_bytes(
                    rr.0,
                    rr.1,
                    rr.2,
                    *fmt,
                    requested_quality(spec_quality_opt(*options)),
                    spec_icon_target(*options),
                ),
            })
            &&& (a.preview matches Some(p) ==> p@ == crate::preview::spec_preview_data_url(
                rr.0,
                rr.1,
                rr.2,
                *fmt,
                img.color.spec_has_alpha(),
            ))
            &&& (a.preview is Some ==> a.message@ == spec_success_message(
                source_size as int,
                spec_output_len(a.output),
                *fmt,
            ))
            &&& (a.preview is None ==> exists|d: Seq<char>|
                a.message@ == spec_preview_failure_message(d))
        }),
{
    let resized: DecodedImage = match options {
        Some(o) => match &o.resize {
            Some(ro) => match crate::resize::resize_image(img, ro) {
                Ok(im) => im,
                Err(_) => {
                    return Err(
                        failure_result(
                            save_failure_message("planned output dimensions are too large"),
                        ),
                    );
                },
            },
            None => img,
        },
        None => img,
    };
    let uid: String = crate::codec::new_unique_id();
    let stem: String = crate::paths::file_stem(source_path);
    let name: String = crate::paths::compose_output_name(
        stem.as_str(),
        uid.as_str(),
        fmt.to_extension(),
    );
    let output: RenderedOutput = match render_output(&resized, fmt, options) {
        Ok(o) => o,
        Err(e) => {
            return Err(failure_result(save_failure_message(e.as_str())));
        },
    };
    let out_len: u64 = match &output {
        RenderedOutput::Binary(b) => b.len() as u64,
        RenderedOutput::Text(t) => t.as_str().len() as u64,
    };
    proof {
        assert(name@ == spec_output_name(
            spec_file_stem(source_path@),
            uid@,
            spec_extension(*fmt),
        ));
    }
    match crate::preview::render_preview(&resized, fmt) {
        Ok(p) => {
            let message = success_message(source_size, out_len, fmt);
            Ok(ConversionArtifact { file_name: name, output, preview: Some(p), message })
        },
        Err(e) => {
            let message = preview_failure_message(e.as_str());
            Ok(ConversionArtifact { file_name: name, output, preview: None, message })
        },
    }
}

/// Assembles the successful result record once the artifact has been
/// written to its final path.
pub fn success_result(artifact: ConversionArtifact, file_path: String, output_size: u64) -> (r:
    ImageConversionResult)
    ensures
        r.success,
        result_consistent(r),
        r.message == artifact.message,
        r.file_path matches Some(p) && p == file_path,
        r.file_name matches Some(n) && n == artifact.file_name,
        r.base64_data == artifact.preview,
        r.file_size matches Some(s) && s == output_size,
{
    ImageConversionResult {
        success: true,
        message: artifact.message,
        file_path: Some(file_path),
        file_name: Some(artifact.file_name),
        base64_data: artifact.preview,
        file_size: Some(output_size),
    }
}

} // verus!

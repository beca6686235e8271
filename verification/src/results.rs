//! Result records handed back over the boundary, their consistency
//! invariant, and the exact text of every message they can carry.

use vstd::prelude::*;
use crate::formats::{spec_extension_upper, OutputFormat};
use crate::image_data::ColorLayout;
use crate::numfmt::{hundredths_str, mib_hundredths, mib_tenths, ratio_tenths, tenths_str};

verus! {

/// The record returned for every conversion request.
#[derive(Debug)]
pub struct ImageConversionResult {
    pub success: bool,
    pub message: String,
    pub file_path: Option<String>,
    pub file_name: Option<String>,
    pub base64_data: Option<String>,
    pub file_size: Option<u64>,
}

/// Success and the optional fields are always consistent: a failure carries
/// no artifact at all, a success always carries a path, a name and a size
/// (only its preview may be missing).
pub open spec fn result_consistent(r: ImageConversionResult) -> bool {
    &&& !r.success ==> r.file_path is None && r.file_name is None && r.base64_data is None
        && r.file_size is None
    &&& r.success ==> r.file_path is Some && r.file_name is Some && r.file_size is Some
}

/// A failure record: only the message is populated.
pub fn failure_result(message: String) -> (r: ImageConversionResult)
    ensures
        !r.success,
        r.message == message,
        result_consistent(r),
{
    ImageConversionResult {
        success: false,
        message,
        file_path: None,
        file_name: None,
        base64_data: None,
        file_size: None,
    }
}

/// The message for a missing source file.
pub open spec fn spec_not_found_message() -> Seq<char> {
    "File does not exist or cannot be accessed"@
}

/// Exec form of `spec_not_found_message`.
pub fn not_found_message() -> (r: String)
    ensures
        r@ == spec_not_found_message(),
{
    String::from_str("File does not exist or cannot be accessed")
}

/// The message for a source file over the size ceiling, reporting the
/// measured size in mebibytes to two decimal places.
pub open spec fn spec_oversize_message(size: int) -> Seq<char> {
    "Image is too large ("@ + hundredths_str(mib_hundredths(size))
        + " MB); please choose an image under 100 MB"@
}

/// Exec form of `spec_oversize_message`.
pub fn oversize_message(size: u64) -> (r: String)
    ensures
        r@ == spec_oversize_message(size as int),
{
    let mib = crate::numfmt::mib_hundredths_u64(size);
    String::from_str("Image is too large (").concat(
        crate::numfmt::hundredths_to_string(mib).as_str(),
    ).concat(" MB); please choose an image under 100 MB")
}

/// The message for rejected SVG input.
pub open spec fn spec_svg_input_message() -> Seq<char> {
    "SVG input is not supported; please choose an image in another format"@
}

/// Exec form of `spec_svg_input_message`.
pub fn svg_input_message() -> (r: String)
    ensures
        r@ == spec_svg_input_message(),
{
    String::from_str("SVG input is not supported; please choose an image in another format")
}

/// The message for a source the codec could not decode.
pub open spec fn spec_decode_failure_message(detail: Seq<char>) -> Seq<char> {
    "Failed to open image: "@ + detail
}

/// Exec form of `spec_decode_failure_message`.
pub fn decode_failure_message(detail: &str) -> (r: String)
    ensures
        r@ == spec_decode_failure_message(detail@),
{
    String::from_str("Failed to open image: ").concat(detail)
}

/// The message for a failed save path.
pub open spec fn spec_save_failure_message(detail: Seq<char>) -> Seq<char> {
    "Failed to save image: "@ + detail
}

/// Exec form of `spec_save_failure_message`.
pub fn save_failure_message(detail: &str) -> (r: String)
    ensures
        r@ == spec_save_failure_message(detail@),
{
    String::from_str("Failed to save image: ").concat(detail)
}

/// The message for a conversion whose saved artifact was written but whose
/// preview step failed: the result stays successful and documents the
/// degradation.
pub open spec fn spec_preview_failure_message(detail: Seq<char>) -> Seq<char> {
    "Conversion succeeded, but preview creation failed: "@ + detail
}

/// Exec form of `spec_preview_failure_message`.
pub fn preview_failure_message(detail: &str) -> (r: String)
    ensures
        r@ == spec_preview_failure_message(detail@),
{
    String::from_str("Conversion succeeded, but preview creation failed: ").concat(detail)
}

/// The generic success message, naming the target format.
pub open spec fn spec_converted_message(f: OutputFormat) -> Seq<char> {
    "Image successfully converted to "@ + spec_extension_upper(f)
}

/// Exec form of `spec_converted_message`.
pub fn converted_message(f: &OutputFormat) -> (r: String)
    ensures
        r@ == spec_converted_message(*f),
{
    String::from_str("Image successfully converted to ").concat(f.to_extension_upper())
}

/// The success message reporting the achieved compression: input and output
/// sizes in mebibytes to one decimal place and the reduction percentage.
pub open spec fn spec_compression_message(input: int, output: int) -> Seq<char> {
    "High-quality compression finished: "@ + tenths_str(mib_tenths(input)) + " MB in, "@
        + tenths_str(mib_tenths(output)) + " MB out, reduced by "@ + tenths_str(
        ratio_tenths(input, output),
    ) + "%"@
}

/// Exec form of `spec_compression_message`.
pub fn compression_message(input: u64, output: u64) -> (r: String)
    requires
        output < input,
    ensures
        r@ == spec_compression_message(input as int, output as int),
{
    let in_mib = crate::numfmt::tenths_to_string(crate::numfmt::mib_tenths_u64(input));
    let out_mib = crate::numfmt::tenths_to_string(crate::numfmt::mib_tenths_u64(output));
    let ratio = crate::numfmt::tenths_to_string(crate::numfmt::ratio_tenths_u64(input, output));
    String::from_str("High-quality compression finished: ").concat(in_mib.as_str()).concat(
        " MB in, ",
    ).concat(out_mib.as_str()).concat(" MB out, reduced by ").concat(ratio.as_str()).concat("%")
}

/// The success message policy: sources over five mebibytes report the
/// compression achieved when the output is smaller, everything else gets
/// the generic message.
pub open spec fn spec_success_message(input: int, output: int, f: OutputFormat) -> Seq<char> {
    if input > 5242880 && output < input {
        spec_compression_message(input, output)
    } else {
        spec_converted_message(f)
    }
}

/// Exec form of `spec_success_message`.
pub fn success_message(input: u64, output: u64, f: &OutputFormat) -> (r: String)
    ensures
        r@ == spec_success_message(input as int, output as int, *f),
{
    if input > 5242880 && output < input {
        compression_message(input, output)
    } else {
        converted_message(f)
    }
}

/// What image inspection reports: dimensions, a color description, and the
/// file's location and byte size.
#[derive(Debug)]
pub struct ImageInfo {
    pub width: u32,
    pub height: u32,
    pub color_type: String,
    pub file_size: u64,
    pub file_path: String,
}

/// Assembles the inspection record for a decoded image.
pub fn build_image_info(width: u32, height: u32, color: &ColorLayout, file_size: u64, file_path: &str) -> (r:
    ImageInfo)
    ensures
        r.width == width,
        r.height == height,
        r.color_type@ == color.spec_description(),
        r.file_size == file_size,
        r.file_path@ == file_path@,
{
    ImageInfo {
        width,
        height,
        color_type: String::from_str(color.description()),
        file_size,
        file_path: String::from_str(file_path),
    }
}

/// Plain file metadata reported over the boundary.
#[derive(Debug)]
pub struct FileMetadata {
    pub size: u64,
    pub is_dir: bool,
    pub modified: Option<u64>,
}

} // verus!

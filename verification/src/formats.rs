//! The closed set of output formats and their derived names.

use vstd::prelude::*;

verus! {

/// A target format for a conversion request.
#[derive(Debug, Clone, Copy, PartialEq, Eq, Structural)]
pub enum OutputFormat {
    PNG,
    JPEG,
    GIF,
    WEBP,
    BMP,
    ICO,
    SVG,
}

/// The file extension used for files written in a given format.
pub open spec fn spec_extension(f: OutputFormat) -> Seq<char> {
    match f {
        OutputFormat::PNG => "png"@,
        OutputFormat::JPEG => "jpg"@,
        OutputFormat::GIF => "gif"@,
        OutputFormat::WEBP => "webp"@,
        OutputFormat::BMP => "bmp"@,
        OutputFormat::ICO => "ico"@,
        OutputFormat::SVG => "svg"@,
    }
}

/// The upper-case spelling of the extension, used in result messages.
pub open spec fn spec_extension_upper(f: OutputFormat) -> Seq<char> {
    match f {
        OutputFormat::PNG => "PNG"@,
        OutputFormat::JPEG => "JPG"@,
        OutputFormat::GIF => "GIF"@,
        OutputFormat::WEBP => "WEBP"@,
        OutputFormat::BMP => "BMP"@,
        OutputFormat::ICO => "ICO"@,
        OutputFormat::SVG => "SVG"@,
    }
}

/// The MIME data-URL prefix under which a preview for this target format is
/// delivered.  The prefix always names the target format, even where the
/// preview payload itself is re-encoded in another codec.
pub open spec fn spec_preview_prefix(f: OutputFormat) -> Seq<char> {
    match f {
        OutputFormat::PNG => "data:image/png;base64,"@,
        OutputFormat::JPEG => "data:image/jpeg;base64,"@,
        OutputFormat::GIF => "data:image/gif;base64,"@,
        OutputFormat::WEBP => "data:image/webp;base64,"@,
        OutputFormat::BMP => "data:image/bmp;base64,"@,
        OutputFormat::ICO => "data:image/x-icon;base64,"@,
        OutputFormat::SVG => "data:image/svg+xml;base64,"@,
    }
}

impl OutputFormat {
    /// The file extension for this format.
    pub fn to_extension(&self) -> (r: &'static str)
        ensures
            r@ == spec_extension(*self),
    {
        match self {
            OutputFormat::PNG => "png",
            OutputFormat::JPEG => "jpg",
            OutputFormat::GIF => "gif",
            OutputFormat::WEBP => "webp",
            OutputFormat::BMP => "bmp",
            OutputFormat::ICO => "ico",
            OutputFormat::SVG => "svg",
        }
    }

    /// The upper-case extension, as spelled in success messages.
    pub fn to_extension_upper(&self) -> (r: &'static str)
        ensures
            r@ == spec_extension_upper(*self),
    {
        match self {
            OutputFormat::PNG => "PNG",
            OutputFormat::JPEG => "JPG",
            OutputFormat::GIF => "GIF",
            OutputFormat::WEBP => "WEBP",
            OutputFormat::BMP => "BMP",
            OutputFormat::ICO => "ICO",
            OutputFormat::SVG => "SVG",
        }
    }

    /// The data-URL prefix for previews of this target format.
    pub fn preview_prefix(&self) -> (r: &'static str)
        ensures
            r@ == spec_preview_prefix(*self),
    {
        match self {
            OutputFormat::PNG => "data:image/png;base64,",
            OutputFormat::JPEG => "data:image/jpeg;base64,",
            OutputFormat::GIF => "data:image/gif;base64,",
            OutputFormat::WEBP => "data:image/webp;base64,",
            OutputFormat::BMP => "data:image/bmp;base64,",
            OutputFormat::ICO => "data:image/x-icon;base64,",
            OutputFormat::SVG => "data:image/svg+xml;base64,",
        }
    }
}

/// A codec that the collaborating image library can encode with directly.
/// `Jpeg` consumes tightly packed RGB bytes; the others consume RGBA bytes.
#[derive(Debug, Clone, Copy, PartialEq, Eq, Structural)]
pub enum CodecFormat {
    Png,
    Jpeg,
    Gif,
    WebP,
    Bmp,
}

/// A stable numeric tag for each codec, used to index the abstract encoder
/// function in specifications.
pub open spec fn codec_code(f: CodecFormat) -> int {
    match f {
        CodecFormat::Png => 0,
        CodecFormat::Jpeg => 1,
        CodecFormat::Gif => 2,
        CodecFormat::WebP => 3,
        CodecFormat::Bmp => 4,
    }
}

/// The ordered list of format names offered to callers.
pub fn get_supported_image_formats() -> (v: Vec<String>)
    ensures
        v@.len() == 7,
        v@[0]@ == "PNG"@,
        v@[1]@ == "JPEG"@,
        v@[2]@ == "GIF"@,
        v@[3]@ == "WEBP"@,
        v@[4]@ == "BMP"@,
        v@[5]@ == "ICO"@,
        v@[6]@ == "SVG"@,
{
    let mut v: Vec<String> = Vec::new();
    v.push(String::from_str("PNG"));
    v.push(String::from_str("JPEG"));
    v.push(String::from_str("GIF"));
    v.push(String::from_str("WEBP"));
    v.push(String::from_str("BMP"));
    v.push(String::from_str("ICO"));
    v.push(String::from_str("SVG"));
    v
}

} // verus!

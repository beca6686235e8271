//! The SVG wrapper: a minimal SVG document embedding a PNG-encoded image as
//! a base64 data URI, with matching width, height and view box.

use vstd::prelude::*;
use crate::numfmt::dec_str;

verus! {

/// The complete SVG document text for an embedded PNG of the given
/// dimensions, rendered as the given base64 text.
pub open spec fn svg_document(w: int, h: int, b64: Seq<char>) -> Seq<char> {
    "<?xml version=\"1.0\" encoding=\"UTF-8\" standalone=\"no\"?>\n<svg width=\""@ + dec_str(w)
        + "\" height=\""@ + dec_str(h) + "\" viewBox=\"0 0 "@ + dec_str(w) + " "@ + dec_str(h)
        + "\"\n     xmlns=\"http://www.w3.org/2000/svg\"\n     xmlns:xlink=\"http://www.w3.org/1999/xlink\">\n  <title>Converted image</title>\n  <desc>Raster image converted and embedded as PNG</desc>\n  <image width=\""@
        + dec_str(w) + "\" height=\""@ + dec_str(h)
        + "\" x=\"0\" y=\"0\"\n         xlink:href=\"data:image/png;base64,"@ + b64 + "\"/>\n</svg>"@
}

/// Builds the SVG document for the given dimensions and base64 PNG text.
pub fn build_svg_document(w: u32, h: u32, b64: &str) -> (r: String)
    ensures
        r@ == svg_document(w as int, h as int, b64@),
{
    let ws = crate::numfmt::u64_to_string(w as u64);
    let hs = crate::numfmt::u64_to_string(h as u64);
    let r = String::from_str(
        "<?xml version=\"1.0\" encoding=\"UTF-8\" standalone=\"no\"?>\n<svg width=\"",
    );
    let r = r.concat(ws.as_str());
    let r = r.concat("\" height=\"");
    let r = r.concat(hs.as_str());
    let r = r.concat("\" viewBox=\"0 0 ");
    let r = r.concat(ws.as_str());
    let r = r.concat(" ");
    let r = r.concat(hs.as_str());
    let r = r.concat(
        "\"\n     xmlns=\"http://www.w3.org/2000/svg\"\n     xmlns:xlink=\"http://www.w3.org/1999/xlink\">\n  <title>Converted image</title>\n  <desc>Raster image converted and embedded as PNG</desc>\n  <image width=\"",
    );
    let r = r.concat(ws.as_str());
    let r = r.concat("\" height=\"");
    let r = r.concat(hs.as_str());
    let r = r.concat("\" x=\"0\" y=\"0\"\n         xlink:href=\"data:image/png;base64,");
    let r = r.concat(b64);
    let r = r.concat("\"/>\n</svg>");
    r
}

} // verus!

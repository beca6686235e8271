use base64::Engine as _;
use imgconv::advisor::advise_jpeg_quality;
use imgconv::formats::OutputFormat;
use imgconv::image_data::{ColorLayout, DecodedImage};
use imgconv::orchestrator::{convert_decoded, render_output, RenderedOutput};
use imgconv::preview::render_preview;
use imgconv::results::{decode_failure_message, preview_failure_message, save_failure_message};

fn rgba_image(w: u32, h: u32, pixels: Vec<u8>) -> DecodedImage {
    assert_eq!(pixels.len(), (4 * w * h) as usize);
    DecodedImage { width: w, height: h, color: ColorLayout::Rgba8, pixels }
}

fn binary(r: RenderedOutput) -> Vec<u8> {
    match r {
        RenderedOutput::Binary(b) => b,
        RenderedOutput::Text(_) => panic!("expected binary output"),
    }
}

#[test]
fn gif_output_carries_the_gif_signature() {
    let img = rgba_image(3, 3, vec![99u8; 36]);
    let b = binary(render_output(&img, &OutputFormat::GIF, &None).unwrap());
    assert_eq!(&b[0..4], b"GIF8");
}

#[test]
fn small_webp_output_is_a_riff_container() {
    // below one million pixels WEBP is encoded directly
    let img = rgba_image(3, 3, vec![99u8; 36]);
    let b = binary(render_output(&img, &OutputFormat::WEBP, &None).unwrap());
    assert_eq!(&b[0..4], b"RIFF");
    assert_eq!(&b[8..12], b"WEBP");
}

#[test]
fn bmp_output_carries_the_bmp_signature() {
    let img = rgba_image(3, 3, vec![99u8; 36]);
    let b = binary(render_output(&img, &OutputFormat::BMP, &None).unwrap());
    assert_eq!(&b[0..2], b"BM");
}

#[test]
fn jpeg_output_carries_the_jpeg_signature() {
    let img = rgba_image(3, 3, vec![99u8; 36]);
    let b = binary(render_output(&img, &OutputFormat::JPEG, &None).unwrap());
    assert_eq!(&b[0..2], &[0xFF, 0xD8]);
}

#[test]
fn svg_previews_render_as_png_behind_the_svg_prefix() {
    let img = rgba_image(4, 4, vec![42u8; 64]);
    let url = render_preview(&img, &OutputFormat::SVG).unwrap();
    assert!(url.starts_with("data:image/svg+xml;base64,"));
    let payload = base64::engine::general_purpose::STANDARD
        .decode(&url["data:image/svg+xml;base64,".len()..])
        .unwrap();
    assert_eq!(&payload[0..4], &[0x89, b'P', b'N', b'G']);
}

#[test]
fn ico_previews_render_as_png() {
    let img = rgba_image(4, 4, vec![42u8; 64]);
    let url = render_preview(&img, &OutputFormat::ICO).unwrap();
    assert!(url.starts_with("data:image/x-icon;base64,"));
    let payload = base64::engine::general_purpose::STANDARD
        .decode(&url["data:image/x-icon;base64,".len()..])
        .unwrap();
    assert_eq!(&payload[0..4], &[0x89, b'P', b'N', b'G']);
}

#[test]
fn sampling_stops_once_the_color_set_exceeds_its_cap() {
    // one row of 40000 pixels sampled at stride 10: 4000 samples.  The
    // first 3001 sampled pixels carry distinct colors, the rest repeat the
    // first color.  The walk stops right after the 3001st distinct color,
    // so diversity is 3001/3001 and the candidate reaches the ceiling; had
    // sampling continued, diversity 3001/4000 would cap quality at 97.
    let w: u32 = 40000;
    let mut p = vec![0u8; (4 * w) as usize];
    for k in 0..4000usize {
        let c: u32 = if k < 3001 { k as u32 } else { 0 };
        let x = 10 * k;
        p[4 * x] = (c / 256) as u8;
        p[4 * x + 1] = (c % 256) as u8;
    }
    let img = rgba_image(w, 1, p);
    assert_eq!(advise_jpeg_quality(&img, 100), 100);
}

#[test]
fn failure_messages_carry_their_detail() {
    assert_eq!(
        decode_failure_message("bad header"),
        "Failed to open image: bad header"
    );
    assert_eq!(
        save_failure_message("disk full"),
        "Failed to save image: disk full"
    );
    assert_eq!(
        preview_failure_message("encoder refused"),
        "Conversion succeeded, but preview creation failed: encoder refused"
    );
}

#[test]
fn mid_size_webp_saves_jpeg_bytes_under_the_webp_name() {
    // over one million pixels the WEBP path writes a JPEG intermediate
    let n: u32 = 1025;
    let img = rgba_image(n, n, vec![120u8; (4 * n * n) as usize]);
    let b = binary(render_output(&img, &OutputFormat::WEBP, &None).unwrap());
    assert_eq!(&b[0..2], &[0xFF, 0xD8]);
}

#[test]
fn large_sources_report_compression_in_the_message() {
    let img = rgba_image(4, 4, vec![9u8; 64]);
    let a = convert_decoded(img, &OutputFormat::PNG, &None, "big.png", 10 * 1024 * 1024)
        .unwrap();
    assert!(a
        .message
        .starts_with("High-quality compression finished: 10.0 MB in, 0.0 MB out, reduced by "));
    assert!(a.message.ends_with("%"));
}

#[test]
fn encoders_reject_dimensions_beyond_their_bounds() {
    // JPEG and GIF store dimensions in two bytes
    let wide = rgba_image(65536, 1, vec![5u8; 4 * 65536]);
    assert!(render_output(&wide, &OutputFormat::JPEG, &None).is_err());
    assert!(render_output(&wide, &OutputFormat::GIF, &None).is_err());
    // PNG takes any non-zero dimensions
    assert!(render_output(&wide, &OutputFormat::PNG, &None).is_ok());
    // lossless WebP stores dimensions in fourteen bits
    let wide_webp = rgba_image(16385, 1, vec![5u8; 4 * 16385]);
    assert!(render_output(&wide_webp, &OutputFormat::WEBP, &None).is_err());
    let ok_webp = rgba_image(16384, 1, vec![5u8; 4 * 16384]);
    assert!(render_output(&ok_webp, &OutputFormat::WEBP, &None).is_ok());
}

#[test]
fn conversion_fails_cleanly_when_the_encoder_rejects() {
    let wide = rgba_image(65536, 1, vec![5u8; 4 * 65536]);
    let r = convert_decoded(wide, &OutputFormat::JPEG, &None, "wide.png", 10).unwrap_err();
    assert!(!r.success);
    assert!(r.message.starts_with("Failed to save image: "));
    assert!(r.file_path.is_none());
    assert!(r.base64_data.is_none());
}

use base64::Engine as _;
use imgconv::file_preview::{get_image_base64_core, mime_for_extension};
use imgconv::formats::OutputFormat;
use imgconv::image_data::{strip_alpha, ColorLayout, DecodedImage};
use imgconv::orchestrator::{
    convert_decoded, render_output, ImageConversionOptions, RenderedOutput,
};
use imgconv::preview::render_preview;
use imgconv::resize::ResizeOptions;

fn rgba_image(w: u32, h: u32, fill: u8) -> DecodedImage {
    DecodedImage {
        width: w,
        height: h,
        color: ColorLayout::Rgba8,
        pixels: vec![fill; (4 * w * h) as usize],
    }
}

fn decode_data_url(url: &str) -> (String, Vec<u8>) {
    let rest = url.strip_prefix("data:").unwrap();
    let comma = rest.find(";base64,").unwrap();
    let mime = rest[..comma].to_string();
    let payload = base64::engine::general_purpose::STANDARD
        .decode(&rest[comma + ";base64,".len()..])
        .unwrap();
    (mime, payload)
}

const PNG_MAGIC: [u8; 4] = [0x89, b'P', b'N', b'G'];
const JPEG_MAGIC: [u8; 2] = [0xFF, 0xD8];

#[test]
fn alpha_stripping_drops_every_fourth_byte() {
    let p = vec![1u8, 2, 3, 4, 5, 6, 7, 8];
    assert_eq!(strip_alpha(&p), vec![1, 2, 3, 5, 6, 7]);
}

#[test]
fn any_png_converted_to_ico_becomes_32_by_32() {
    // source dimensions do not matter: 5x7 in, 32x32 icon out
    let img = rgba_image(5, 7, 90);
    let r = render_output(&img, &OutputFormat::ICO, &None).unwrap();
    match r {
        RenderedOutput::Binary(b) => {
            assert_eq!(b.len(), 62 + 4 * 32 * 32);
            assert_eq!(b[6], 32);
            assert_eq!(b[7], 32);
        },
        RenderedOutput::Text(_) => panic!("ICO output must be binary"),
    }
}

#[test]
fn png_output_is_really_png_encoded() {
    let img = rgba_image(3, 3, 10);
    let r = render_output(&img, &OutputFormat::PNG, &None).unwrap();
    match r {
        RenderedOutput::Binary(b) => assert_eq!(&b[0..4], &PNG_MAGIC),
        RenderedOutput::Text(_) => panic!("PNG output must be binary"),
    }
}

#[test]
fn svg_output_embeds_a_png_data_uri() {
    let img = rgba_image(2, 3, 40);
    let r = render_output(&img, &OutputFormat::SVG, &None).unwrap();
    match r {
        RenderedOutput::Text(t) => {
            assert!(t.starts_with("<?xml version=\"1.0\""));
            assert!(t.contains("<svg width=\"2\" height=\"3\" viewBox=\"0 0 2 3\""));
            assert!(t.contains("xlink:href=\"data:image/png;base64,"));
            assert!(t.ends_with("</svg>"));
            // the embedded payload is a real PNG
            let start = t.find("base64,").unwrap() + "base64,".len();
            let end = t[start..].find('"').unwrap() + start;
            let payload = base64::engine::general_purpose::STANDARD
                .decode(&t[start..end])
                .unwrap();
            assert_eq!(&payload[0..4], &PNG_MAGIC);
        },
        RenderedOutput::Binary(_) => panic!("SVG output must be text"),
    }
}

#[test]
fn preview_keeps_png_for_small_transparent_images() {
    let img = rgba_image(4, 4, 77);
    let url = render_preview(&img, &OutputFormat::PNG).unwrap();
    let (mime, payload) = decode_data_url(&url);
    assert_eq!(mime, "image/png");
    assert_eq!(&payload[0..4], &PNG_MAGIC);
}

#[test]
fn bmp_previews_are_jpeg_behind_a_bmp_prefix() {
    let img = rgba_image(4, 4, 77);
    let url = render_preview(&img, &OutputFormat::BMP).unwrap();
    let (mime, payload) = decode_data_url(&url);
    // the prefix names the target format, the payload is the preview codec
    assert_eq!(mime, "image/bmp");
    assert_eq!(&payload[0..2], &JPEG_MAGIC);
}

#[test]
fn opaque_png_targets_get_a_jpeg_preview() {
    let mut img = rgba_image(4, 4, 77);
    img.color = ColorLayout::Rgb8;
    let url = render_preview(&img, &OutputFormat::PNG).unwrap();
    let (mime, payload) = decode_data_url(&url);
    assert_eq!(mime, "image/png");
    assert_eq!(&payload[0..2], &JPEG_MAGIC);
}

#[test]
fn conversion_produces_artifact_preview_and_message() {
    let img = rgba_image(6, 5, 33);
    let a = convert_decoded(img, &OutputFormat::PNG, &None, "/tmp/shot.png", 1234).unwrap();
    assert!(a.file_name.starts_with("shot-"));
    assert!(a.file_name.ends_with(".png"));
    // stem, dash, a 36-character identifier, dot, extension
    assert_eq!(a.file_name.chars().count(), 4 + 1 + 36 + 1 + 3);
    let url = a.preview.clone().unwrap();
    let (mime, payload) = decode_data_url(&url);
    assert_eq!(mime, "image/png");
    assert_eq!(&payload[0..4], &PNG_MAGIC);
    assert_eq!(a.message, "Image successfully converted to PNG");
    match &a.output {
        RenderedOutput::Binary(b) => {
            assert_eq!(a.output_byte_len(), b.len() as u64);
            assert_eq!(&b[0..4], &PNG_MAGIC);
        },
        RenderedOutput::Text(_) => panic!("PNG output must be binary"),
    }
}

#[test]
fn output_names_differ_between_conversions() {
    let a1 = convert_decoded(rgba_image(2, 2, 1), &OutputFormat::BMP, &None, "x.png", 10).unwrap();
    let a2 = convert_decoded(rgba_image(2, 2, 1), &OutputFormat::BMP, &None, "x.png", 10).unwrap();
    assert_ne!(a1.file_name, a2.file_name);
}

#[test]
fn conversion_applies_the_resize_request() {
    let img = rgba_image(64, 48, 20);
    let options = Some(ImageConversionOptions {
        quality: None,
        resize: Some(ResizeOptions { width: Some(500), height: Some(300), keep_aspect_ratio: false }),
    });
    let a = convert_decoded(img, &OutputFormat::ICO, &options, "art.png", 99).unwrap();
    // for ICO the resize width also selects the icon size: 500 snaps to 256
    match &a.output {
        RenderedOutput::Binary(b) => {
            assert_eq!(b.len(), 62 + 4 * 256 * 256);
            assert_eq!(b[6], 0); // 256 encoded as 0
        },
        RenderedOutput::Text(_) => panic!("ICO output must be binary"),
    }
}

#[test]
fn jpeg_conversion_respects_the_quality_override() {
    let img = rgba_image(8, 8, 120);
    let options = Some(ImageConversionOptions { quality: Some(255), resize: None });
    let a = convert_decoded(img, &OutputFormat::JPEG, &options, "q.png", 50).unwrap();
    match &a.output {
        RenderedOutput::Binary(b) => assert_eq!(&b[0..2], &JPEG_MAGIC),
        RenderedOutput::Text(_) => panic!("JPEG output must be binary"),
    }
}

#[test]
fn file_previews_follow_the_extension_mime() {
    assert_eq!(mime_for_extension(Some("jpg")), "image/jpeg");
    assert_eq!(mime_for_extension(Some("jpeg")), "image/jpeg");
    assert_eq!(mime_for_extension(Some("png")), "image/png");
    assert_eq!(mime_for_extension(Some("gif")), "image/gif");
    assert_eq!(mime_for_extension(Some("webp")), "image/webp");
    assert_eq!(mime_for_extension(Some("bmp")), "image/bmp");
    assert_eq!(mime_for_extension(Some("ico")), "image/x-icon");
    assert_eq!(mime_for_extension(Some("svg")), "image/svg+xml");
    assert_eq!(mime_for_extension(Some("tiff")), "image/jpeg");
    assert_eq!(mime_for_extension(None), "image/jpeg");
}

#[test]
fn small_png_files_keep_a_png_preview() {
    let img = rgba_image(5, 5, 60);
    let url = get_image_base64_core(&img, 1000, Some("png")).unwrap();
    let (mime, payload) = decode_data_url(&url);
    assert_eq!(mime, "image/png");
    assert_eq!(&payload[0..4], &PNG_MAGIC);
}

#[test]
fn png_files_over_one_mib_preview_as_jpeg() {
    let img = rgba_image(5, 5, 60);
    let url = get_image_base64_core(&img, 2 * 1024 * 1024, Some("png")).unwrap();
    let (mime, payload) = decode_data_url(&url);
    assert_eq!(mime, "image/png");
    assert_eq!(&payload[0..2], &JPEG_MAGIC);
}

#[test]
fn large_files_are_scaled_down_for_preview() {
    // a 40x20 image from a file claimed to be 21 MiB: scaled by a fifth
    let img = rgba_image(40, 20, 60);
    let url = get_image_base64_core(&img, 21 * 1024 * 1024, Some("jpg")).unwrap();
    let (mime, payload) = decode_data_url(&url);
    assert_eq!(mime, "image/jpeg");
    assert_eq!(&payload[0..2], &JPEG_MAGIC);
}

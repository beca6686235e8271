use imgconv::formats::OutputFormat;
use imgconv::numfmt::{hundredths_to_string, tenths_to_string, u64_to_string};
use imgconv::orchestrator::validate_source;
use imgconv::paths::{compose_output_name, file_stem, is_svg_path};
use imgconv::results::{build_image_info, oversize_message, success_message};
use imgconv::image_data::ColorLayout;

#[test]
fn decimal_rendering() {
    assert_eq!(u64_to_string(0), "0");
    assert_eq!(u64_to_string(7), "7");
    assert_eq!(u64_to_string(1234567890), "1234567890");
    assert_eq!(tenths_to_string(105), "10.5");
    assert_eq!(tenths_to_string(7), "0.7");
    assert_eq!(hundredths_to_string(15000), "150.00");
    assert_eq!(hundredths_to_string(10305), "103.05");
    assert_eq!(hundredths_to_string(42), "0.42");
}

#[test]
fn the_size_ceiling_is_exactly_100_mib() {
    // exactly 100 MiB is accepted
    assert!(validate_source(true, 104_857_600, "a.png").is_none());
    // one byte above is rejected
    let r = validate_source(true, 104_857_601, "a.png").unwrap();
    assert!(!r.success);
    assert!(r.file_path.is_none());
    assert!(r.base64_data.is_none());
}

#[test]
fn a_150_mib_source_reports_its_size() {
    let r = validate_source(true, 157_286_400, "big.jpg").unwrap();
    assert!(!r.success);
    assert!(r.message.contains("150.00 MB"));
}

#[test]
fn oversize_message_text() {
    assert_eq!(
        oversize_message(157_286_400),
        "Image is too large (150.00 MB); please choose an image under 100 MB"
    );
}

#[test]
fn missing_files_are_rejected_first() {
    let r = validate_source(false, 0, "a.png").unwrap();
    assert!(!r.success);
    assert_eq!(r.message, "File does not exist or cannot be accessed");
}

#[test]
fn svg_input_is_rejected_in_any_letter_case() {
    assert!(is_svg_path("picture.svg"));
    assert!(is_svg_path("picture.SVG"));
    assert!(is_svg_path("dir/picture.SvG"));
    assert!(!is_svg_path("picturesvg"));
    assert!(!is_svg_path("picture.png"));
    assert!(!is_svg_path("svg"));
    let r = validate_source(true, 100, "logo.svg").unwrap();
    assert!(!r.success);
    assert_eq!(
        r.message,
        "SVG input is not supported; please choose an image in another format"
    );
    assert!(validate_source(true, 100, "logo.png").is_none());
}

#[test]
fn file_stems_follow_path_conventions() {
    assert_eq!(file_stem("/tmp/photo.png"), "photo");
    assert_eq!(file_stem("photo.final.png"), "photo.final");
    assert_eq!(file_stem("dir/.config"), ".config");
    assert_eq!(file_stem("noext"), "noext");
    assert_eq!(file_stem("dir/"), "converted");
    assert_eq!(file_stem(""), "converted");
    // the dot components name no file
    assert_eq!(file_stem("."), "converted");
    assert_eq!(file_stem(".."), "converted");
    assert_eq!(file_stem("dir/.."), "converted");
    assert_eq!(file_stem("..."), "..");
}

#[test]
fn output_names_join_stem_id_and_extension() {
    assert_eq!(compose_output_name("photo", "someid", "png"), "photo-someid.png");
}

#[test]
fn success_messages_report_compression_only_for_large_sources() {
    // 10 MiB in, 5 MiB out: halved
    let m = success_message(10 * 1024 * 1024, 5 * 1024 * 1024, &OutputFormat::JPEG);
    assert_eq!(
        m,
        "High-quality compression finished: 10.0 MB in, 5.0 MB out, reduced by 50.0%"
    );
    // small sources always get the generic message
    assert_eq!(
        success_message(1000, 500, &OutputFormat::PNG),
        "Image successfully converted to PNG"
    );
    // large sources whose output grew also get the generic message
    assert_eq!(
        success_message(6 * 1024 * 1024, 7 * 1024 * 1024, &OutputFormat::WEBP),
        "Image successfully converted to WEBP"
    );
}

#[test]
fn extensions_and_prefixes() {
    assert_eq!(OutputFormat::PNG.to_extension(), "png");
    assert_eq!(OutputFormat::JPEG.to_extension(), "jpg");
    assert_eq!(OutputFormat::GIF.to_extension(), "gif");
    assert_eq!(OutputFormat::WEBP.to_extension(), "webp");
    assert_eq!(OutputFormat::BMP.to_extension(), "bmp");
    assert_eq!(OutputFormat::ICO.to_extension(), "ico");
    assert_eq!(OutputFormat::SVG.to_extension(), "svg");
    assert_eq!(OutputFormat::ICO.preview_prefix(), "data:image/x-icon;base64,");
    let formats = imgconv::formats::get_supported_image_formats();
    assert_eq!(formats, vec!["PNG", "JPEG", "GIF", "WEBP", "BMP", "ICO", "SVG"]);
}

#[test]
fn image_info_describes_the_color_layout() {
    let info = build_image_info(640, 480, &ColorLayout::Rgba8, 2048, "/tmp/pic.png");
    assert_eq!(info.width, 640);
    assert_eq!(info.height, 480);
    assert_eq!(info.color_type, "8-bit RGBA");
    assert_eq!(info.file_size, 2048);
    assert_eq!(info.file_path, "/tmp/pic.png");
    let gray = build_image_info(1, 1, &ColorLayout::L16, 1, "g");
    assert_eq!(gray.color_type, "16-bit grayscale");
    let float_rgb = build_image_info(1, 1, &ColorLayout::Rgb32F, 1, "f");
    assert_eq!(float_rgb.color_type, "32-bit float RGB");
}

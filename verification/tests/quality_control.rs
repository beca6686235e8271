use imgconv::advisor::advise_jpeg_quality;
use imgconv::image_data::{ColorLayout, DecodedImage};
use imgconv::quality::{effective_quality, jpeg_save_quality, webp_save_plan, WebpPlan};

fn rgba_image(w: u32, h: u32, pixels: Vec<u8>) -> DecodedImage {
    assert_eq!(pixels.len(), (4 * w * h) as usize);
    DecodedImage { width: w, height: h, color: ColorLayout::Rgba8, pixels }
}

#[test]
fn requested_quality_is_clamped_to_the_lossy_range() {
    assert_eq!(effective_quality(&Some(255)), 100);
    assert_eq!(effective_quality(&Some(101)), 100);
    assert_eq!(effective_quality(&Some(100)), 100);
    assert_eq!(effective_quality(&Some(0)), 1);
    assert_eq!(effective_quality(&Some(1)), 1);
    assert_eq!(effective_quality(&Some(55)), 55);
    assert_eq!(effective_quality(&None), 90);
}

#[test]
fn small_images_use_the_requested_quality_directly() {
    let img = rgba_image(10, 10, vec![7u8; 400]);
    assert_eq!(jpeg_save_quality(&img, &Some(42)), 42);
    assert_eq!(jpeg_save_quality(&img, &None), 90);
    assert_eq!(jpeg_save_quality(&img, &Some(255)), 100);
}

#[test]
fn a_uniform_image_is_advised_near_the_quality_floor() {
    // 30x30 of one color, stride 10: a 3x3 grid of samples, one distinct
    // color, so the candidate is 75 + 30/9 = 78
    let img = rgba_image(30, 30, vec![50u8; 4 * 30 * 30]);
    assert_eq!(advise_jpeg_quality(&img, 90), 78);
    // the floor also overrides lower requests
    assert_eq!(advise_jpeg_quality(&img, 80), 78);
    assert_eq!(advise_jpeg_quality(&img, 10), 75);
}

#[test]
fn a_fully_diverse_sample_is_advised_the_ceiling() {
    // 40x1: samples at x = 0, 10, 20, 30, each a different color
    let mut p = vec![0u8; 4 * 40];
    for (i, x) in [0usize, 10, 20, 30].iter().enumerate() {
        p[4 * x] = (i + 1) as u8;
    }
    let img = rgba_image(40, 1, p);
    // 4 distinct over 4 samples: candidate 75 + 30 = 105, capped by the
    // request which is itself capped at 100
    assert_eq!(advise_jpeg_quality(&img, 100), 100);
    assert_eq!(advise_jpeg_quality(&img, 80), 80);
}

#[test]
fn webp_uses_quality_90_over_four_million_pixels() {
    assert_eq!(webp_save_plan(12_000_000, &None), WebpPlan::JpegIntermediate(90));
    assert_eq!(webp_save_plan(4_000_001, &Some(30)), WebpPlan::JpegIntermediate(90));
}

#[test]
fn webp_lifts_mid_size_images_to_at_least_85() {
    assert_eq!(webp_save_plan(2_000_000, &Some(30)), WebpPlan::JpegIntermediate(85));
    assert_eq!(webp_save_plan(2_000_000, &Some(95)), WebpPlan::JpegIntermediate(95));
    assert_eq!(webp_save_plan(2_000_000, &None), WebpPlan::JpegIntermediate(90));
}

#[test]
fn small_webp_images_are_encoded_directly() {
    assert_eq!(webp_save_plan(1_000_000, &Some(30)), WebpPlan::DirectWebp);
    assert_eq!(webp_save_plan(100, &None), WebpPlan::DirectWebp);
}

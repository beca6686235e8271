use imgconv::image_data::{ColorLayout, DecodedImage};
use imgconv::resize::{plan_resize, resize_image, ResizeOptions};

fn rgba_image(w: u32, h: u32) -> DecodedImage {
    DecodedImage {
        width: w,
        height: h,
        color: ColorLayout::Rgba8,
        pixels: vec![128u8; (4 * w * h) as usize],
    }
}

#[test]
fn width_only_with_kept_aspect_computes_the_height() {
    // 4000x3000 with width 800: height = round(3000 * 800 / 4000) = 600
    let o = ResizeOptions { width: Some(800), height: None, keep_aspect_ratio: true };
    assert_eq!(plan_resize(4000, 3000, &o), (800, 600));
    // rounding to nearest, halves up: round(3 * 500 / 1000) = round(1.5) = 2
    let o2 = ResizeOptions { width: Some(500), height: None, keep_aspect_ratio: true };
    assert_eq!(plan_resize(1000, 3, &o2), (500, 2));
}

#[test]
fn height_only_with_kept_aspect_computes_the_width() {
    let o = ResizeOptions { width: None, height: Some(600), keep_aspect_ratio: true };
    assert_eq!(plan_resize(4000, 3000, &o), (800, 600));
}

#[test]
fn single_dimension_without_aspect_keeps_the_other() {
    let o = ResizeOptions { width: Some(800), height: None, keep_aspect_ratio: false };
    assert_eq!(plan_resize(4000, 3000, &o), (800, 3000));
    let o2 = ResizeOptions { width: None, height: Some(100), keep_aspect_ratio: false };
    assert_eq!(plan_resize(4000, 3000, &o2), (4000, 100));
}

#[test]
fn both_dimensions_with_kept_aspect_fit_within_the_box() {
    let o = ResizeOptions { width: Some(800), height: Some(800), keep_aspect_ratio: true };
    assert_eq!(plan_resize(4000, 3000, &o), (800, 600));
    let o2 = ResizeOptions { width: Some(800), height: Some(300), keep_aspect_ratio: true };
    assert_eq!(plan_resize(4000, 3000, &o2), (400, 300));
}

#[test]
fn neither_dimension_leaves_the_image_unchanged() {
    let o = ResizeOptions { width: None, height: None, keep_aspect_ratio: true };
    assert_eq!(plan_resize(4000, 3000, &o), (4000, 3000));
    let img = rgba_image(6, 4);
    let out = resize_image(img, &o).unwrap();
    assert_eq!((out.width, out.height), (6, 4));
    assert_eq!(out.pixels, vec![128u8; 96]);
}

#[test]
fn exact_resize_ignores_the_source_aspect_ratio() {
    // 64x48 forced to 500x300 without keeping aspect
    let img = rgba_image(64, 48);
    let o = ResizeOptions { width: Some(500), height: Some(300), keep_aspect_ratio: false };
    let out = resize_image(img, &o).unwrap();
    assert_eq!((out.width, out.height), (500, 300));
    assert_eq!(out.pixels.len(), 4 * 500 * 300);
    assert_eq!(out.color, ColorLayout::Rgba8);
}

#[test]
fn large_landscape_resized_by_width_gives_800_by_600() {
    let img = rgba_image(4000, 3000);
    let o = ResizeOptions { width: Some(800), height: None, keep_aspect_ratio: true };
    let out = resize_image(img, &o).unwrap();
    assert_eq!((out.width, out.height), (800, 600));
    assert_eq!(out.pixels.len(), 4 * 800 * 600);
}

#[test]
fn requested_zero_dimensions_are_clamped_to_one() {
    let o = ResizeOptions { width: Some(0), height: Some(0), keep_aspect_ratio: false };
    assert_eq!(plan_resize(40, 30, &o), (1, 1));
}

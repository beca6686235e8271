use imgconv::ico::{create_bmp_data, encode_icon, snap_icon_size};
use imgconv::image_data::{ColorLayout, DecodedImage};

fn rgba_image(w: u32, h: u32, pixels: Vec<u8>) -> DecodedImage {
    assert_eq!(pixels.len(), (4 * w * h) as usize);
    DecodedImage { width: w, height: h, color: ColorLayout::Rgba8, pixels }
}

fn read_le16(b: &[u8], off: usize) -> u32 {
    b[off] as u32 + 256 * b[off + 1] as u32
}

fn read_le32(b: &[u8], off: usize) -> u32 {
    b[off] as u32
        + (b[off + 1] as u32) * 256
        + (b[off + 2] as u32) * 65536
        + (b[off + 3] as u32) * 16777216
}

#[test]
fn snapping_follows_the_threshold_table() {
    assert_eq!(snap_icon_size(0), 16);
    assert_eq!(snap_icon_size(16), 16);
    assert_eq!(snap_icon_size(17), 32);
    assert_eq!(snap_icon_size(32), 32);
    assert_eq!(snap_icon_size(33), 48);
    assert_eq!(snap_icon_size(48), 48);
    assert_eq!(snap_icon_size(49), 64);
    assert_eq!(snap_icon_size(64), 64);
    assert_eq!(snap_icon_size(65), 128);
    assert_eq!(snap_icon_size(128), 128);
    assert_eq!(snap_icon_size(129), 256);
    assert_eq!(snap_icon_size(300), 256);
    assert_eq!(snap_icon_size(u32::MAX), 256);
}

#[test]
fn bmp_data_layout_for_two_pixels() {
    // one row of two pixels: RGBA (1,2,3,4) and (5,6,7,8)
    let p = vec![1u8, 2, 3, 4, 5, 6, 7, 8];
    let dib = create_bmp_data(&p, 2, 1);
    assert_eq!(dib.len(), 40 + 8);
    assert_eq!(read_le32(&dib, 0), 40); // header size
    assert_eq!(read_le32(&dib, 4), 2); // width
    assert_eq!(read_le32(&dib, 8), 2); // doubled height
    assert_eq!(read_le16(&dib, 12), 1); // planes
    assert_eq!(read_le16(&dib, 14), 32); // bit depth
    assert_eq!(read_le32(&dib, 16), 0); // no compression
    assert_eq!(read_le32(&dib, 20), 8); // pixel data size
    // pixels re-ordered to B, G, R, A
    assert_eq!(&dib[40..48], &[3, 2, 1, 4, 7, 6, 5, 8]);
}

#[test]
fn bmp_rows_are_written_bottom_up() {
    // two rows of one pixel: top (1,2,3,4), bottom (9,10,11,12)
    let p = vec![1u8, 2, 3, 4, 9, 10, 11, 12];
    let dib = create_bmp_data(&p, 1, 2);
    assert_eq!(dib.len(), 48);
    // bottom source row comes first in the DIB
    assert_eq!(&dib[40..44], &[11, 10, 9, 12]);
    assert_eq!(&dib[44..48], &[3, 2, 1, 4]);
}

#[test]
fn ico_round_trip_for_a_32_by_32_buffer() {
    let img = rgba_image(32, 32, vec![200u8; 4 * 32 * 32]);
    let ico = encode_icon(&img, 32);
    // fixed layout: 6-byte header, 16-byte directory, 40-byte DIB header
    assert_eq!(ico.len(), 62 + 4 * 32 * 32);
    assert_eq!(&ico[0..6], &[0, 0, 1, 0, 1, 0]);
    // directory: width, height, bit depth, DIB length
    assert_eq!(ico[6], 32);
    assert_eq!(ico[7], 32);
    assert_eq!(read_le16(&ico, 10), 1); // planes
    assert_eq!(read_le16(&ico, 12), 32); // bit depth
    let dib_len = read_le32(&ico, 14);
    assert_eq!(dib_len, 40 + 4096); // DIB header + pixel data
    assert_eq!(dib_len as usize - 40, 4096);
    assert_eq!(read_le32(&ico, 18), 22); // DIB offset
    assert_eq!(read_le32(&ico, 22), 40); // BITMAPINFOHEADER size
    assert_eq!(read_le32(&ico, 26), 32); // width
    assert_eq!(read_le32(&ico, 30), 64); // doubled height
}

#[test]
fn ico_pixels_keep_their_values_in_bgra_order() {
    // a 32x32 image whose top-left pixel is distinct
    let mut p = vec![200u8; 4 * 32 * 32];
    p[0] = 1; // R
    p[1] = 2; // G
    p[2] = 3; // B
    p[3] = 4; // A
    let img = rgba_image(32, 32, p);
    let ico = encode_icon(&img, 32);
    // the top source row is the last DIB row; its first pixel is B,G,R,A
    let off = 62 + 4 * (31 * 32);
    assert_eq!(&ico[off..off + 4], &[3, 2, 1, 4]);
}

#[test]
fn side_256_is_encoded_as_zero_bytes() {
    let img = rgba_image(4, 4, vec![9u8; 64]);
    let ico = encode_icon(&img, 300);
    assert_eq!(ico[6], 0);
    assert_eq!(ico[7], 0);
    assert_eq!(ico.len(), 62 + 4 * 256 * 256);
}

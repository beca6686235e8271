//! The icon-container encoder: a single-image ICO file holding an
//! uncompressed top-down-reversed DIB, built byte by byte against a
//! fixed-offset binary schema.

use vstd::prelude::*;
use crate::codec::{resample_rgba, resampled_rgba};
use crate::image_data::DecodedImage;

verus! {

/// The fixed set of icon side lengths.
pub open spec fn is_icon_size(m: int) -> bool {
    m == 16 || m == 32 || m == 48 || m == 64 || m == 128 || m == 256
}

/// Snapping a requested side length to the icon table: the least member at
/// or above the request, and 256 for anything larger than 128.
pub open spec fn spec_snap_icon_size(t: int) -> int {
    if t <= 16 {
        16
    } else if t <= 32 {
        32
    } else if t <= 48 {
        48
    } else if t <= 64 {
        64
    } else if t <= 128 {
        128
    } else {
        256
    }
}

/// The documented threshold table: which member a requested size belongs to.
pub open spec fn icon_table_maps(t: int, m: int) -> bool {
    &&& (m == 16 <==> t <= 16)
    &&& (m == 32 <==> 16 < t <= 32)
    &&& (m == 48 <==> 32 < t <= 48)
    &&& (m == 64 <==> 48 < t <= 64)
    &&& (m == 128 <==> 64 < t <= 128)
    &&& (m == 256 <==> 128 < t)
}

/// The snapped size is a member of the table and satisfies the threshold
/// rule for the request.
pub proof fn lemma_snap_in_table(t: int)
    ensures
        is_icon_size(spec_snap_icon_size(t)),
        icon_table_maps(t, spec_snap_icon_size(t)),
{
}

/// The snapped size is the *unique* member of the table satisfying the
/// threshold rule: any member that satisfies it is the snapped size.
pub proof fn lemma_snap_unique(t: int, m: int)
    requires
        is_icon_size(m),
        icon_table_maps(t, m),
    ensures
        m == spec_snap_icon_size(t),
{
}

/// Exec form of `spec_snap_icon_size`.
pub fn snap_icon_size(t: u32) -> (r: u32)
    ensures
        r as int == spec_snap_icon_size(t as int),
        16 <= r <= 256,
{
    if t <= 16 {
        16
    } else if t <= 32 {
        32
    } else if t <= 48 {
        48
    } else if t <= 64 {
        64
    } else if t <= 128 {
        128
    } else {
        256
    }
}

/// Two little-endian bytes of a value below 2^16.
pub open spec fn le16(v: int) -> Seq<u8> {
    seq![(v % 256) as u8, ((v / 256) % 256) as u8]
}

/// Four little-endian bytes of a value below 2^32.
pub open spec fn le32(v: int) -> Seq<u8> {
    seq![
        (v % 256) as u8,
        ((v / 256) % 256) as u8,
        ((v / 65536) % 256) as u8,
        ((v / 16777216) % 256) as u8,
    ]
}

/// A directory-entry size byte: 256 is encoded as 0 by ICO convention.
pub open spec fn size_byte(s: int) -> u8 {
    if s == 256 {
        0
    } else {
        s as u8
    }
}

/// The 6-byte ICO file header: reserved 0, type 1 (icon), image count 1.
pub open spec fn ico_header() -> Seq<u8> {
    seq![0u8, 0u8, 1u8, 0u8, 1u8, 0u8]
}

/// The 16-byte single directory entry: width and height bytes, no palette,
/// reserved 0, 1 plane, 32 bits per pixel, the DIB byte length, and the DIB
/// offset 22 (= 6 + 16).
pub open spec fn ico_dir_entry(w: int, h: int, dib_len: int) -> Seq<u8> {
    seq![size_byte(w), size_byte(h), 0u8, 0u8] + le16(1) + le16(32) + le32(dib_len) + le32(22)
}

/// The 40-byte BITMAPINFOHEADER: header size 40, width, doubled height (ICO
/// convention), 1 plane, 32 bits per pixel, no compression, the pixel data
/// size, and four zeroed resolution/palette fields.
pub open spec fn bmp_info_header(w: int, h: int) -> Seq<u8> {
    le32(40) + le32(w) + le32(2 * h) + le16(1) + le16(32) + le32(0) + le32(4 * w * h) + le32(0)
        + le32(0) + le32(0) + le32(0)
}

/// The uncompressed pixel payload: rows bottom to top, each pixel as four
/// bytes in B, G, R, A order, taken from a row-major RGBA source buffer.
pub open spec fn dib_pixel_data(p: Seq<u8>, w: int, h: int) -> Seq<u8> {
    Seq::new(
        (4 * w * h) as nat,
        |i: int|
            {
                let px = i / 4;
                let c = i % 4;
                let row = px / w;
                let col = px % w;
                let base = 4 * ((h - 1 - row) * w + col);
                if c == 0 {
                    p[base + 2]
                } else if c == 1 {
                    p[base + 1]
                } else if c == 2 {
                    p[base]
                } else {
                    p[base + 3]
                }
            },
    )
}

/// The full DIB embedded in the container: info header then pixel payload.
pub open spec fn ico_dib(p: Seq<u8>, w: int, h: int) -> Seq<u8> {
    bmp_info_header(w, h) + dib_pixel_data(p, w, h)
}

/// The complete ICO byte stream for one `s x s` RGBA buffer.
pub open spec fn ico_bytes(p: Seq<u8>, s: int) -> Seq<u8> {
    ico_header() + ico_dir_entry(s, s, 40 + 4 * s * s) + ico_dib(p, s, s)
}

/// Appends the two little-endian bytes of `v`.
fn push_le16(out: &mut Vec<u8>, v: u16)
    ensures
        final(out)@ == old(out)@ + le16(v as int),
{
    out.push((v % 256) as u8);
    out.push((v / 256) as u8);
    proof {
        assert(final(out)@ =~= old(out)@ + le16(v as int));
    }
}

/// Appends the four little-endian bytes of `v`.
fn push_le32(out: &mut Vec<u8>, v: u32)
    ensures
        final(out)@ == old(out)@ + le32(v as int),
{
    out.push((v % 256) as u8);
    out.push(((v / 256) % 256) as u8);
    out.push(((v / 65536) % 256) as u8);
    out.push(((v / 16777216) % 256) as u8);
    proof {
        assert(final(out)@ =~= old(out)@ + le32(v as int));
    }
}

/// Builds the DIB for an RGBA buffer: the 40-byte info header followed by
/// bottom-to-top BGRA pixel rows.
pub fn create_bmp_data(p: &Vec<u8>, w: u32, h: u32) -> (r: Vec<u8>)
    requires
        p@.len() == 4 * (w as int) * (h as int),
        w >= 1,
        h >= 1,
        4 * (w as int) * (h as int) <= u32::MAX,
        2 * (h as int) <= u32::MAX,
    ensures
        r@ == ico_dib(p@, w as int, h as int),
        r@.len() == 40 + 4 * (w as int) * (h as int),
{
    let ghost wi = w as int;
    let ghost hi = h as int;
    proof {
        assert(4 * wi * hi == 4 * (wi * hi)) by (nonlinear_arith);
        assert(wi * hi >= 1) by (nonlinear_arith)
            requires
                wi >= 1,
                hi >= 1,
        ;
    }
    let mut out: Vec<u8> = Vec::new();
    push_le32(&mut out, 40);
    push_le32(&mut out, w);
    push_le32(&mut out, 2 * h);
    push_le16(&mut out, 1);
    push_le16(&mut out, 32);
    push_le32(&mut out, 0);
    let area: u64 = (w as u64) * (h as u64);
    push_le32(&mut out, (4 * area) as u32);
    push_le32(&mut out, 0);
    push_le32(&mut out, 0);
    push_le32(&mut out, 0);
    push_le32(&mut out, 0);
    proof {
        assert(out@ =~= bmp_info_header(wi, hi));
        assert(bmp_info_header(wi, hi).len() == 40);
        assert(ico_dib(p@, wi, hi).len() == 40 + 4 * wi * hi);
        assert(forall|i: int|
            0 <= i < 40 ==> ico_dib(p@, wi, hi)[i] == bmp_info_header(wi, hi)[i]);
    }
    let n: usize = p.len() / 4;
    proof {
        assert(n == wi * hi);
    }
    let mut px: usize = 0;
    while px < n
        invariant
            p@.len() == 4 * wi * hi,
            4 * wi * hi == 4 * (wi * hi),
            wi == w as int,
            hi == h as int,
            w >= 1,
            h >= 1,
            4 * wi * hi <= u32::MAX,
            n == wi * hi,
            px <= n,
            out@.len() == 40 + 4 * px,
            forall|i: int| 0 <= i < out@.len() ==> out@[i] == ico_dib(p@, wi, hi)[i],
        decreases n - px,
    {
        let row: usize = px / (w as usize);
        let col: usize = px % (w as usize);
        proof {
            vstd::arithmetic::div_mod::lemma_fundamental_div_mod(px as int, wi);
            vstd::arithmetic::div_mod::lemma_mod_bound(px as int, wi);
            vstd::arithmetic::div_mod::lemma_div_pos_is_pos(px as int, wi);
            assert(row as int == px as int / wi);
            assert(col as int == px as int % wi);
            assert((row as int) < hi) by (nonlinear_arith)
                requires
                    px as int == (row as int) * wi + col as int,
                    0 <= (col as int) < wi,
                    (px as int) < wi * hi,
                    wi >= 1,
                    row as int >= 0,
            ;
            assert((hi - 1 - row as int) * wi + (col as int) < wi * hi) by (nonlinear_arith)
                requires
                    0 <= (row as int) < hi,
                    0 <= (col as int) < wi,
                    wi >= 1,
            ;
            assert((hi - 1 - row as int) * wi + col as int >= 0) by (nonlinear_arith)
                requires
                    0 <= (row as int) < hi,
                    0 <= (col as int) < wi,
                    wi >= 1,
            ;
        }
        let src_row: usize = (h as usize) - 1 - row;
        let idx: usize = src_row * (w as usize) + col;
        let base: usize = 4 * idx;
        let b_b: u8 = p[base + 2];
        let b_g: u8 = p[base + 1];
        let b_r: u8 = p[base];
        let b_a: u8 = p[base + 3];
        out.push(b_b);
        out.push(b_g);
        out.push(b_r);
        out.push(b_a);
        proof {
            let d = ico_dib(p@, wi, hi);
            assert forall|i: int| 0 <= i < out@.len() implies out@[i] == d[i] by {
                if i >= 40 + 4 * (px as int) {
                    let k = i - 40;
                    let j = k - 4 * (px as int);
                    assert(0 <= j < 4);
                    vstd::arithmetic::div_mod::lemma_fundamental_div_mod_converse_div(
                        k,
                        4,
                        px as int,
                        j,
                    );
                    vstd::arithmetic::div_mod::lemma_fundamental_div_mod_converse_mod(
                        k,
                        4,
                        px as int,
                        j,
                    );
                    assert(d[i] == dib_pixel_data(p@, wi, hi)[k]);
                }
            }
        }
        px = px + 1;
    }
    proof {
        assert(out@ =~= ico_dib(p@, wi, hi));
    }
    out
}

/// Encodes a single-image ICO container: the image is resampled to the
/// snapped square side length and embedded as an uncompressed DIB behind
/// the 6-byte header and 16-byte directory entry.
pub fn encode_icon(img: &DecodedImage, target: u32) -> (r: Vec<u8>)
    requires
        img.well_formed(),
    ensures
        ({
            let s = spec_snap_icon_size(target as int);
            r@ == ico_bytes(
                resampled_rgba(img.pixels@, img.width as int, img.height as int, s, s, false),
                s,
            ) && r@.len() == 62 + 4 * s * s
        }),
{
    let s: u32 = snap_icon_size(target);
    let ghost si = s as int;
    proof {
        assert(4 * si * si == 4 * (si * si)) by (nonlinear_arith);
        assert(si * si <= 65536) by (nonlinear_arith)
            requires
                16 <= si <= 256,
        ;
    }
    let resized: Vec<u8> = resample_rgba(&img.pixels, img.width, img.height, s, s, false);
    let mut dib: Vec<u8> = create_bmp_data(&resized, s, s);
    let dib_len: u32 = dib.len() as u32;
    let mut out: Vec<u8> = Vec::new();
    out.push(0);
    out.push(0);
    out.push(1);
    out.push(0);
    out.push(1);
    out.push(0);
    let sb: u8 = if s == 256 {
        0
    } else {
        s as u8
    };
    out.push(sb);
    out.push(sb);
    out.push(0);
    out.push(0);
    push_le16(&mut out, 1);
    push_le16(&mut out, 32);
    push_le32(&mut out, dib_len);
    push_le32(&mut out, 22);
    proof {
        assert(out@ =~= ico_header() + ico_dir_entry(si, si, 40 + 4 * si * si));
    }
    out.append(&mut dib);
    proof {
        assert(out@ =~= ico_bytes(resized@, si));
    }
    out
}

/// Reads two little-endian bytes at `off`.
pub open spec fn read_le16(b: Seq<u8>, off: int) -> int {
    b[off] + 256 * b[off + 1]
}

/// Reads four little-endian bytes at `off`.
pub open spec fn read_le32(b: Seq<u8>, off: int) -> int {
    b[off] + 256 * b[off + 1] + 65536 * b[off + 2] + 16777216 * b[off + 3]
}

/// The width declared by the single directory entry; byte 0 means 256.
pub open spec fn dir_width(b: Seq<u8>) -> int {
    if b[6] == 0 {
        256
    } else {
        b[6] as int
    }
}

/// The height declared by the single directory entry; byte 0 means 256.
pub open spec fn dir_height(b: Seq<u8>) -> int {
    if b[7] == 0 {
        256
    } else {
        b[7] as int
    }
}

/// The bit depth declared by the single directory entry.
pub open spec fn dir_bit_depth(b: Seq<u8>) -> int {
    read_le16(b, 12)
}

/// The DIB byte length declared by the single directory entry.
pub open spec fn dir_dib_len(b: Seq<u8>) -> int {
    read_le32(b, 14)
}

/// Reading back the little-endian encoding of a 32-bit value recovers it.
proof fn lemma_le32_read(v: int)
    requires
        0 <= v < 0x1_0000_0000,
    ensures
        (le32(v)[0] as int) + 256 * (le32(v)[1] as int) + 65536 * (le32(v)[2] as int) + 16777216 * (
        le32(v)[3] as int) == v,
{
    vstd::arithmetic::div_mod::lemma_fundamental_div_mod(v, 256);
    vstd::arithmetic::div_mod::lemma_mod_bound(v, 256);
    vstd::arithmetic::div_mod::lemma_div_denominator(v, 256, 256);
    vstd::arithmetic::div_mod::lemma_fundamental_div_mod(v / 256, 256);
    vstd::arithmetic::div_mod::lemma_mod_bound(v / 256, 256);
    vstd::arithmetic::div_mod::lemma_div_denominator(v, 65536, 256);
    vstd::arithmetic::div_mod::lemma_fundamental_div_mod(v / 65536, 256);
    vstd::arithmetic::div_mod::lemma_mod_bound(v / 65536, 256);
    assert(v / 16777216 < 256) by {
        vstd::arithmetic::div_mod::lemma_div_pos_is_pos(v, 16777216);
        if v / 16777216 >= 256 {
            vstd::arithmetic::div_mod::lemma_fundamental_div_mod(v, 16777216);
            vstd::arithmetic::div_mod::lemma_mod_bound(v, 16777216);
            assert(v >= 16777216 * 256) by (nonlinear_arith)
                requires
                    v == 16777216 * (v / 16777216) + v % 16777216,
                    v % 16777216 >= 0,
                    v / 16777216 >= 256,
            ;
        }
    }
    vstd::arithmetic::div_mod::lemma_fundamental_div_mod(v, 16777216);
}

/// The DIB that `create_bmp_data` lays out for any `w x h` RGBA buffer is a
/// 40-byte BITMAPINFOHEADER followed by exactly four bytes per pixel: no row
/// padding and no 14-byte BMP file header.
pub proof fn lemma_dib_layout(p: Seq<u8>, w: int, h: int)
    requires
        w >= 1,
        h >= 1,
    ensures
        bmp_info_header(w, h).len() == 40,
        dib_pixel_data(p, w, h).len() == 4 * w * h,
        ico_dib(p, w, h).len() == 40 + 4 * w * h,
{
    assert(4 * w * h == 4 * (w * h)) by (nonlinear_arith);
    assert(w * h >= 1) by (nonlinear_arith)
        requires
            w >= 1,
            h >= 1,
    ;
}

/// The container layout is fixed: 6 header bytes, a 16-byte directory
/// entry, a 40-byte DIB header, and four bytes per pixel; the total length
/// is `62 + 4 * s * s`.
pub proof fn lemma_ico_layout(p: Seq<u8>, s: int)
    requires
        p.len() == 4 * s * s,
        1 <= s <= 256,
    ensures
        ico_header().len() == 6,
        ico_dir_entry(s, s, 40 + 4 * s * s).len() == 16,
        bmp_info_header(s, s).len() == 40,
        ico_bytes(p, s).len() == 62 + 4 * s * s,
{
    assert(4 * s * s == 4 * (s * s)) by (nonlinear_arith);
    assert(s * s >= 0) by (nonlinear_arith)
        requires
            s >= 1,
    ;
}

/// Round trip through the directory: re-parsing the encoded container
/// recovers the side length in both size bytes, a bit depth of 32, and a
/// declared DIB length of the 40-byte header plus four bytes per pixel.
/// The directory's declared dimensions also match the embedded bitmap
/// header, whose width field holds the side length and whose height field
/// holds its ICO-doubled value.
pub proof fn lemma_ico_directory_round_trip(p: Seq<u8>, s: int)
    requires
        p.len() == 4 * s * s,
        is_icon_size(s),
    ensures
        dir_width(ico_bytes(p, s)) == s,
        dir_height(ico_bytes(p, s)) == s,
        dir_bit_depth(ico_bytes(p, s)) == 32,
        dir_dib_len(ico_bytes(p, s)) == 40 + 4 * s * s,
        read_le32(ico_bytes(p, s), 26) == s,
        read_le32(ico_bytes(p, s), 30) == 2 * s,
{
    lemma_ico_layout(p, s);
    let b = ico_bytes(p, s);
    let e = ico_dir_entry(s, s, 40 + 4 * s * s);
    let m = bmp_info_header(s, s);
    assert(b[6] == e[0] && b[7] == e[1]);
    assert(b[12] == e[6] && b[13] == e[7]);
    assert(b[14] == e[8] && b[15] == e[9] && b[16] == e[10] && b[17] == e[11]);
    assert(4 * s * s <= 4 * 65536) by (nonlinear_arith)
        requires
            1 <= s <= 256,
    ;
    lemma_le32_read(40 + 4 * s * s);
    assert(b[26] == m[4] && b[27] == m[5] && b[28] == m[6] && b[29] == m[7]);
    assert(b[30] == m[8] && b[31] == m[9] && b[32] == m[10] && b[33] == m[11]);
    lemma_le32_read(s);
    lemma_le32_read(2 * s);
}

} // verus!

//! The in-memory model of a decoded image: dimensions, the source
//! color-channel layout, and the pixel data normalized to 8-bit RGBA.

use vstd::prelude::*;

verus! {

/// The color-channel layout that a source image was decoded from.
#[derive(Debug, Clone, Copy, PartialEq, Eq, Structural)]
pub enum ColorLayout {
    L8,
    La8,
    Rgb8,
    Rgba8,
    L16,
    La16,
    Rgb16,
    Rgba16,
    Rgb32F,
    Rgba32F,
    Unknown,
}

impl ColorLayout {
    /// Whether the source carried an alpha channel of its own.
    pub open spec fn spec_has_alpha(self) -> bool {
        self is Rgba8 || self is Rgba16 || self is Rgba32F
    }

    /// Exec form of `spec_has_alpha`.
    pub fn has_alpha(&self) -> (r: bool)
        ensures
            r == self.spec_has_alpha(),
    {
        match self {
            ColorLayout::Rgba8 => true,
            ColorLayout::Rgba16 => true,
            ColorLayout::Rgba32F => true,
            _ => false,
        }
    }

    /// The human-readable description used by image inspection.
    pub open spec fn spec_description(self) -> Seq<char> {
        match self {
            ColorLayout::L8 => "8-bit grayscale"@,
            ColorLayout::La8 => "8-bit grayscale + alpha"@,
            ColorLayout::Rgb8 => "8-bit RGB"@,
            ColorLayout::Rgba8 => "8-bit RGBA"@,
            ColorLayout::L16 => "16-bit grayscale"@,
            ColorLayout::La16 => "16-bit grayscale + alpha"@,
            ColorLayout::Rgb16 => "16-bit RGB"@,
            ColorLayout::Rgba16 => "16-bit RGBA"@,
            ColorLayout::Rgb32F => "32-bit float RGB"@,
            ColorLayout::Rgba32F => "32-bit float RGBA"@,
            ColorLayout::Unknown => "unknown format"@,
        }
    }

    /// Exec form of `spec_description`.
    pub fn description(&self) -> (r: &'static str)
        ensures
            r@ == self.spec_description(),
    {
        match self {
            ColorLayout::L8 => "8-bit grayscale",
            ColorLayout::La8 => "8-bit grayscale + alpha",
            ColorLayout::Rgb8 => "8-bit RGB",
            ColorLayout::Rgba8 => "8-bit RGBA",
            ColorLayout::L16 => "16-bit grayscale",
            ColorLayout::La16 => "16-bit grayscale + alpha",
            ColorLayout::Rgb16 => "16-bit RGB",
            ColorLayout::Rgba16 => "16-bit RGBA",
            ColorLayout::Rgb32F => "32-bit float RGB",
            ColorLayout::Rgba32F => "32-bit float RGBA",
            ColorLayout::Unknown => "unknown format",
        }
    }
}

/// A decoded image: `width * height` pixels, each four bytes (R, G, B, A) in
/// row-major order, together with the layout the source was decoded from.
/// The buffer is owned by a single request and mutated only by resizing.
pub struct DecodedImage {
    pub width: u32,
    pub height: u32,
    pub color: ColorLayout,
    pub pixels: Vec<u8>,
}

impl DecodedImage {
    /// The structural invariant: no zero dimension, and a fully populated
    /// RGBA buffer.
    pub open spec fn well_formed(self) -> bool {
        &&& self.width >= 1
        &&& self.height >= 1
        &&& self.pixels@.len() == 4 * (self.width as int) * (self.height as int)
    }

    /// Total number of pixels.
    pub open spec fn spec_pixel_count(self) -> int {
        (self.width as int) * (self.height as int)
    }

    /// Exec form of `spec_pixel_count`.
    pub fn pixel_count(&self) -> (r: u64)
        ensures
            r == self.spec_pixel_count(),
    {
        proof {
            vstd::arithmetic::mul::lemma_mul_upper_bound(
                self.width as int,
                u32::MAX as int,
                self.height as int,
                u32::MAX as int,
            );
        }
        (self.width as u64) * (self.height as u64)
    }
}

/// The tightly packed RGB bytes of an RGBA buffer: every fourth byte (the
/// alpha channel) dropped.
pub open spec fn rgb_of(p: Seq<u8>) -> Seq<u8> {
    Seq::new((p.len() / 4 * 3) as nat, |i: int| p[i / 3 * 4 + i % 3])
}

/// Drops the alpha channel from an RGBA buffer.
pub fn strip_alpha(p: &Vec<u8>) -> (r: Vec<u8>)
    requires
        p@.len() % 4 == 0,
    ensures
        r@ == rgb_of(p@),
{
    let n = p.len();
    let mut r: Vec<u8> = Vec::new();
    let mut j: usize = 0;
    while j < n / 4
        invariant
            n == p@.len(),
            n % 4 == 0,
            j <= n / 4,
            r@.len() == 3 * j,
            forall|i: int| 0 <= i < r@.len() ==> r@[i] == p@[i / 3 * 4 + i % 3],
        decreases n / 4 - j,
    {
        proof {
            assert(4 * (j as int) + 2 < n) by (nonlinear_arith)
                requires
                    (j as int) < (n as int) / 4,
                    n % 4 == 0,
                    n >= 0,
            ;
            assert(3 * (j as int) + 2 < 3 * ((n as int) / 4));
        }
        let base = 4 * j;
        r.push(p[base]);
        r.push(p[base + 1]);
        r.push(p[base + 2]);
        j = j + 1;
        proof {
            assert forall|i: int| 0 <= i < r@.len() implies r@[i] == p@[i / 3 * 4 + i % 3] by {
                if i >= 3 * (j - 1) {
                    assert(i / 3 == j - 1 && i % 3 == i - 3 * (j - 1)) by (nonlinear_arith)
                        requires
                            3 * (j - 1) <= i < 3 * (j as int),
                            j >= 1,
                    ;
                }
            }
        }
    }
    proof {
        assert(r@ =~= rgb_of(p@));
    }
    r
}

} // verus!

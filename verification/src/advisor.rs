//! The color-complexity advisor: samples a strided grid of pixels, counts
//! distinct 24-bit colors up to a cap, and derives an adaptive JPEG quality
//! from the observed color diversity.

use vstd::prelude::*;
use crate::image_data::DecodedImage;

verus! {

/// The 24-bit color key of the pixel at `(x, y)`: its first three channels.
pub open spec fn pixel_key(p: Seq<u8>, w: int, x: int, y: int) -> u32 {
    (((p[4 * (y * w + x)] as int) * 65536) + ((p[4 * (y * w + x) + 1] as int) * 256) + (p[4 * (y
        * w + x) + 2] as int)) as u32
}

/// How many grid lines a dimension yields at the given stride.
pub open spec fn grid_count(dim: int, stride: int) -> int {
    (dim - 1) / stride + 1
}

/// The color keys of the sampled grid, in row-major walk order.
pub open spec fn sample_keys(p: Seq<u8>, w: int, h: int, stride: int) -> Seq<u32> {
    let cols = grid_count(w, stride);
    Seq::new(
        (grid_count(h, stride) * cols) as nat,
        |k: int| pixel_key(p, w, stride * (k % cols), stride * (k / cols)),
    )
}

/// How many samples the bounded walk takes: it processes keys in order and
/// stops right after the distinct-color set first exceeds 3000 entries.
pub open spec fn walk_count(keys: Seq<u32>, seen: Set<u32>) -> int
    decreases keys.len(),
{
    if keys.len() == 0 {
        0
    } else {
        let s2 = seen.insert(keys[0]);
        if s2.len() > 3000 {
            1
        } else {
            1 + walk_count(keys.skip(1), s2)
        }
    }
}

/// The distinct colors gathered when the bounded walk stops.
pub open spec fn walk_seen(keys: Seq<u32>, seen: Set<u32>) -> Set<u32>
    decreases keys.len(),
{
    if keys.len() == 0 {
        seen
    } else {
        let s2 = seen.insert(keys[0]);
        if s2.len() > 3000 {
            s2
        } else {
            walk_seen(keys.skip(1), s2)
        }
    }
}

/// The walk takes at most one sample per key, at least one when any key is
/// present, and gathers at most one new color per sample.
pub proof fn lemma_walk_bounds(keys: Seq<u32>, seen: Set<u32>)
    requires
        seen.finite(),
    ensures
        walk_seen(keys, seen).finite(),
        walk_seen(keys, seen).len() <= seen.len() + walk_count(keys, seen),
        walk_count(keys, seen) <= keys.len(),
        keys.len() > 0 ==> walk_count(keys, seen) >= 1,
    decreases keys.len(),
{
    if keys.len() > 0 {
        let s2 = seen.insert(keys[0]);
        if s2.len() > 3000 {
        } else {
            lemma_walk_bounds(keys.skip(1), s2);
        }
    }
}

/// The sampling stride: 20 for images over ten million pixels, else 10.
pub open spec fn spec_stride(pixel_count: int) -> int {
    if pixel_count > 10000000 {
        20
    } else {
        10
    }
}

/// The diversity-derived candidate quality: 75 plus up to 30 further points
/// as the ratio of distinct colors to samples approaches one.
pub open spec fn spec_candidate_quality(distinct: int, samples: int) -> int {
    75 + (30 * distinct) / samples
}

/// The advised JPEG quality: the requested quality capped by the candidate,
/// floored at 75.
pub open spec fn spec_advised_quality(p: Seq<u8>, w: int, h: int, requested: int) -> int {
    let keys = sample_keys(p, w, h, spec_stride(w * h));
    let samples = walk_count(keys, Set::empty());
    let distinct = walk_seen(keys, Set::empty()).len() as int;
    let cand = spec_candidate_quality(distinct, samples);
    let m = if requested <= cand {
        requested
    } else {
        cand
    };
    if m < 75 {
        75
    } else {
        m
    }
}

/// A bounded set of distinct quantized colors, gathered during sampling.
pub struct ColorSampleSet {
    keys: Vec<u32>,
}

impl ColorSampleSet {
    /// The abstract contents.
    pub closed spec fn set(self) -> Set<u32> {
        self.keys@.to_set()
    }

    /// Internal invariant: no color is stored twice.
    pub closed spec fn inv(self) -> bool {
        self.keys@.no_duplicates()
    }

    /// An empty set.
    pub fn new() -> (r: Self)
        ensures
            r.inv(),
            r.set() == Set::<u32>::empty(),
            r.set().finite(),
    {
        let r = ColorSampleSet { keys: Vec::new() };
        proof {
            assert(r.keys@.to_set() =~= Set::<u32>::empty());
        }
        r
    }

    /// The number of distinct colors gathered so far.
    pub fn len(&self) -> (n: usize)
        requires
            self.inv(),
        ensures
            n == self.set().len(),
    {
        proof {
            self.keys@.unique_seq_to_set();
        }
        self.keys.len()
    }

    /// Adds a color; already-present colors leave the set unchanged.
    pub fn insert(&mut self, k: u32)
        requires
            old(self).inv(),
        ensures
            final(self).inv(),
            final(self).set() == old(self).set().insert(k),
            final(self).set().finite(),
    {
        proof {
            vstd::seq_lib::seq_to_set_is_finite(self.keys@);
        }
        if self.contains(k) {
            proof {
                assert(self.set().contains(k));
                assert(self.set().insert(k) =~= self.set());
            }
        } else {
            proof {
                self.keys@.lemma_push_to_set_commute(k);
            }
            self.keys.push(k);
            proof {
                vstd::seq_lib::seq_to_set_is_finite(self.keys@);
            }
        }
    }

    /// Whether a color is already present.
    fn contains(&self, k: u32) -> (r: bool)
        ensures
            r == self.keys@.contains(k),
    {
        let n = self.keys.len();
        let mut i: usize = 0;
        while i < n
            invariant
                n == self.keys@.len(),
                i <= n,
                forall|j: int| 0 <= j < i ==> self.keys@[j] != k,
            decreases n - i,
        {
            if self.keys[i] == k {
                return true;
            }
            i = i + 1;
        }
        false
    }
}

/// Samples the image on a strided grid and returns the adaptive JPEG
/// quality: the requested quality capped by the diversity-derived candidate
/// and floored at 75.
pub fn advise_jpeg_quality(img: &DecodedImage, requested: u8) -> (q: u8)
    requires
        img.well_formed(),
        1 <= requested <= 100,
    ensures
        q as int == spec_advised_quality(
            img.pixels@,
            img.width as int,
            img.height as int,
            requested as int,
        ),
        75 <= q <= 100,
{
    let ghost wi = img.width as int;
    let ghost hi = img.height as int;
    let ghost pv = img.pixels@;
    let plen: usize = img.pixels.len();
    let pc: u64 = img.pixel_count();
    let stride: u32 = if pc > 10000000 {
        20
    } else {
        10
    };
    let ghost st = stride as int;
    let cols: u32 = (img.width - 1) / stride + 1;
    let rows: u32 = (img.height - 1) / stride + 1;
    let ghost keys = sample_keys(pv, wi, hi, st);
    proof {
        vstd::arithmetic::mul::lemma_mul_upper_bound(
            rows as int,
            u32::MAX as int,
            cols as int,
            u32::MAX as int,
        );
        assert(rows as int * (cols as int) >= 1) by (nonlinear_arith)
            requires
                rows >= 1,
                cols >= 1,
        ;
        assert(keys.len() == rows as int * (cols as int));
    }
    let total: u64 = (rows as u64) * (cols as u64);
    proof {
        assert(4 * (wi * hi) == 4 * wi * hi) by (nonlinear_arith);
        assert(keys.skip(0) =~= keys);
    }
    let mut set = ColorSampleSet::new();
    let mut taken: u64 = 0;
    let mut k: u64 = 0;
    loop
        invariant_except_break
            set.set().len() <= 3000,
            walk_count(keys, Set::empty()) == k + walk_count(keys.skip(k as int), set.set()),
            walk_seen(keys, Set::empty()) == walk_seen(keys.skip(k as int), set.set()),
        invariant
            img.well_formed(),
            wi == img.width as int,
            hi == img.height as int,
            pv == img.pixels@,
            pv.len() == 4 * wi * hi,
            4 * (wi * hi) == 4 * wi * hi,
            plen == pv.len(),
            stride == 10 || stride == 20,
            st == stride as int,
            cols as int == grid_count(wi, st),
            rows as int == grid_count(hi, st),
            cols >= 1,
            rows >= 1,
            total == (rows as int) * (cols as int),
            keys == sample_keys(pv, wi, hi, st),
            keys.len() == total,
            set.inv(),
            set.set().finite(),
            set.set().len() <= 3001,
            k <= total,
            taken == k,
        ensures
            taken == walk_count(keys, Set::empty()),
            set.set() == walk_seen(keys, Set::empty()),
        decreases total - k,
    {
        if k == total {
            proof {
                assert(keys.skip(k as int).len() == 0);
            }
            break ;
        }
        let row: u64 = k / (cols as u64);
        let col: u64 = k % (cols as u64);
        proof {
            vstd::arithmetic::div_mod::lemma_fundamental_div_mod(k as int, cols as int);
            vstd::arithmetic::div_mod::lemma_mod_bound(k as int, cols as int);
            vstd::arithmetic::div_mod::lemma_div_pos_is_pos(k as int, cols as int);
            assert((row as int) < rows as int) by (nonlinear_arith)
                requires
                    k as int == (cols as int) * (row as int) + (col as int),
                    0 <= (col as int) < cols as int,
                    (k as int) < (rows as int) * (cols as int),
                    cols >= 1,
                    row as int >= 0,
            ;
            // a grid coordinate stays strictly inside its dimension
            vstd::arithmetic::div_mod::lemma_fundamental_div_mod(wi - 1, st);
            vstd::arithmetic::div_mod::lemma_mod_bound(wi - 1, st);
            vstd::arithmetic::mul::lemma_mul_inequality(col as int, (wi - 1) / st, st);
            vstd::arithmetic::div_mod::lemma_fundamental_div_mod(hi - 1, st);
            vstd::arithmetic::div_mod::lemma_mod_bound(hi - 1, st);
            vstd::arithmetic::mul::lemma_mul_inequality(row as int, (hi - 1) / st, st);
        }
        let x: u64 = (stride as u64) * col;
        let y: u64 = (stride as u64) * row;
        proof {
            assert(st * (col as int) == (col as int) * st) by (nonlinear_arith);
            assert(st * (row as int) == (row as int) * st) by (nonlinear_arith);
            assert(x as int <= wi - 1);
            assert(y as int <= hi - 1);
            assert((y as int) * wi + (x as int) < wi * hi) by (nonlinear_arith)
                requires
                    0 <= (y as int) <= hi - 1,
                    0 <= (x as int) <= wi - 1,
                    wi >= 1,
            ;
            assert(4 * (wi * hi) == 4 * wi * hi) by (nonlinear_arith);
            vstd::arithmetic::mul::lemma_mul_upper_bound(y as int, hi - 1, wi, u32::MAX as int);
        }
        let base: u64 = 4 * (y * (img.width as u64) + x);
        let b0: u8 = img.pixels[base as usize];
        let b1: u8 = img.pixels[(base + 1) as usize];
        let b2: u8 = img.pixels[(base + 2) as usize];
        let key: u32 = (b0 as u32) * 65536 + (b1 as u32) * 256 + (b2 as u32);
        proof {
            assert(keys.skip(k as int)[0] == keys[k as int]);
            assert(keys[k as int] == pixel_key(pv, wi, x as int, y as int));
            assert(key == pixel_key(pv, wi, x as int, y as int));
            assert(keys.skip(k as int).skip(1) =~= keys.skip(k as int + 1));
        }
        let ghost pre = set.set();
        set.insert(key);
        taken = taken + 1;
        k = k + 1;
        if set.len() > 3000 {
            proof {
                assert(walk_count(keys.skip(k as int - 1), pre) == 1);
                assert(walk_seen(keys.skip(k as int - 1), pre) == set.set());
            }
            break ;
        }
        proof {
            assert(walk_count(keys.skip(k as int - 1), pre) == 1 + walk_count(
                keys.skip(k as int),
                set.set(),
            ));
            assert(walk_seen(keys.skip(k as int - 1), pre) == walk_seen(
                keys.skip(k as int),
                set.set(),
            ));
        }
    }
    let distinct: usize = set.len();
    proof {
        lemma_walk_bounds(keys, Set::empty());
    }
    let cand: u64 = 75 + (30 * (distinct as u64)) / taken;
    let rq: u64 = requested as u64;
    let m: u64 = if rq <= cand {
        rq
    } else {
        cand
    };
    let q64: u64 = if m < 75 {
        75
    } else {
        m
    };
    q64 as u8
}

/// The advised quality always lies in the valid lossy-encoder range, and
/// never exceeds a requested quality that is itself at least the floor.
pub proof fn lemma_advised_quality_range(p: Seq<u8>, w: int, h: int, requested: int)
    requires
        1 <= requested <= 100,
        w >= 1,
        h >= 1,
    ensures
        75 <= spec_advised_quality(p, w, h, requested) <= 100,
        requested >= 75 ==> spec_advised_quality(p, w, h, requested) <= requested,
{
    let keys = sample_keys(p, w, h, spec_stride(w * h));
    let samples = walk_count(keys, Set::empty());
    let distinct = walk_seen(keys, Set::empty()).len() as int;
    lemma_walk_bounds(keys, Set::empty());
    let cand = spec_candidate_quality(distinct, samples);
    if samples > 0 {
        vstd::arithmetic::div_mod::lemma_div_pos_is_pos(30 * distinct, samples);
    }
}

} // verus!

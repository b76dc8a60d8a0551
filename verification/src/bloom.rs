//! Fixed-capacity probabilistic membership filter with seeded hashing.
//!
//! A filter is a bit array of `m` bits and `k` hash functions derived from a
//! seed string, so that several filters over the same universe of items use
//! statistically independent bit patterns.  Bits are only ever set, never
//! cleared: a `contains` answer can flip from `false` to `true` but never
//! back, which gives the filter its one hard guarantee — no false negatives.

use vstd::prelude::*;

verus! {

use vstd::string::StringSliceAdditionalSpecFns;

/// Offset basis of the 64-bit FNV-1a hash.
pub const FNV_OFFSET: u64 = 0xcbf29ce484222325;

/// Multiplicative prime of the 64-bit FNV-1a hash.
pub const FNV_PRIME: u64 = 0x100000001b3;

/// `a * b` reduced modulo `2^64`.
pub open spec fn mul_mod64(a: u64, b: u64) -> u64 {
    (((a as int) * (b as int)) % 0x10000000000000000) as u64
}

/// One FNV-1a round: fold byte `b` into state `h`.
pub open spec fn fnv_step(h: u64, b: u8) -> u64 {
    mul_mod64(h ^ (b as u64), FNV_PRIME)
}

/// FNV-1a state after absorbing every byte of `bytes`, starting from `h`.
pub open spec fn fnv_bytes(h: u64, bytes: Seq<u8>) -> u64
    decreases bytes.len(),
{
    if bytes.len() == 0 {
        h
    } else {
        fnv_bytes(fnv_step(h, bytes[0]), bytes.skip(1))
    }
}

/// The `i`-th derived hash of `item` under `seed`: the seed and the item are
/// absorbed into one FNV-1a state, then the hash index is folded in, so each
/// of the `k` functions and each seed yields a distinct bit pattern.
pub open spec fn bloom_hash(seed: Seq<u8>, item: Seq<u8>, i: u64) -> u64 {
    mul_mod64(fnv_bytes(fnv_bytes(FNV_OFFSET, seed), item) ^ i, FNV_PRIME)
}

/// The bit position probed by the `i`-th hash in a filter of `m` bits.
pub open spec fn bloom_pos(seed: Seq<u8>, item: Seq<u8>, i: u64, m: int) -> int {
    bloom_hash(seed, item, i) as int % m
}

/// Floor of the base-2 logarithm of `x`, for `x >= 1`.
pub open spec fn log2_floor(x: int) -> int
    decreases x,
{
    if x < 2 {
        0
    } else {
        1 + log2_floor(x / 2)
    }
}

/// Hash count derived from a target false-positive rate of
/// `fp_ppm / 1_000_000`: the standard `k = log2(1/p)`, floored, clamped to
/// the range `1 ..= 20` (a rate of one per million already needs only 19).
pub open spec fn spec_hash_count(fp_ppm: u64) -> u64 {
    let k = log2_floor(1_000_000int / fp_ppm as int);
    if k < 1 {
        1
    } else if k > 20 {
        20
    } else {
        k as u64
    }
}

/// Bit-array size derived from the expected item count and the hash count:
/// the standard `m = n * k / ln 2`, with `1/ln 2` taken as `1443/1000`,
/// floored, at least 1.
pub open spec fn spec_bit_count(expected_items: u64, k: u64) -> u64 {
    let m = expected_items as int * k as int * 1443 / 1000;
    if m < 1 {
        1
    } else {
        m as u64
    }
}

/// A seeded bloom filter: `m = bits.len()` bits probed by `k` derived hash
/// functions.
pub struct Bloom {
    bits: Vec<bool>,
    k: u64,
    seed: Vec<u8>,
}

impl Bloom {
    /// The bit array.
    pub closed spec fn spec_bits(&self) -> Seq<bool> {
        self.bits@
    }

    /// The number of derived hash functions.
    pub closed spec fn spec_k(&self) -> u64 {
        self.k
    }

    /// The seed bytes mixed into every hash.
    pub closed spec fn spec_seed(&self) -> Seq<u8> {
        self.seed@
    }

    /// A usable filter has at least one bit and at least one hash function.
    pub open spec fn wf(&self) -> bool {
        &&& self.spec_bits().len() >= 1
        &&& self.spec_k() >= 1
    }

    /// A filter reports `item` present exactly when all `k` probed bits are
    /// set.
    pub open spec fn spec_contains(&self, item: Seq<u8>) -> bool {
        forall|i: u64|
            i < self.spec_k() ==> self.spec_bits()[bloom_pos(
                self.spec_seed(),
                item,
                i,
                self.spec_bits().len() as int,
            )]
    }

    /// How `post` relates to `pre` after `item` is inserted: the parameters
    /// are unchanged and each bit is the old bit, or set because one of the
    /// `k` hashes of `item` probes it.
    pub open spec fn spec_inserted(pre: Bloom, post: Bloom, item: Seq<u8>) -> bool {
        &&& post.spec_k() == pre.spec_k()
        &&& post.spec_seed() == pre.spec_seed()
        &&& post.spec_bits().len() == pre.spec_bits().len()
        &&& forall|j: int|
            0 <= j < pre.spec_bits().len() ==> post.spec_bits()[j] == (pre.spec_bits()[j]
                || exists|i: u64|
                i < pre.spec_k() && j == bloom_pos(
                    pre.spec_seed(),
                    item,
                    i,
                    pre.spec_bits().len() as int,
                ))
    }

    /// An empty filter sized by the standard formulas for `expected_items`
    /// elements at a target false-positive rate of `fp_ppm` parts per
    /// million, with every hash salted by `seed`.
    pub fn new_for_fp_rate_with_seed(expected_items: u64, fp_ppm: u64, seed: &str) -> (r: Bloom)
        requires
            1 <= expected_items <= 30_000_000,
            1 <= fp_ppm <= 999_999,
        ensures
            r.wf(),
            r.spec_k() == spec_hash_count(fp_ppm),
            r.spec_bits().len() == spec_bit_count(expected_items, spec_hash_count(fp_ppm)),
            r.spec_seed() == seed.spec_bytes(),
            forall|j: int| 0 <= j < r.spec_bits().len() ==> !r.spec_bits()[j],
    {
        let k = hash_count(fp_ppm);
        assert(1 <= k <= 20);
        proof {
            assert(expected_items as int * k as int <= 600_000_000int) by (nonlinear_arith)
                requires
                    expected_items <= 30_000_000,
                    k <= 20,
            ;
        }
        let m64: u64 = {
            let m: u64 = expected_items * k * 1443 / 1000;
            if m < 1 {
                1
            } else {
                m
            }
        };
        assert(m64 <= 0x7fffffff);
        let target: usize = m64 as usize;
        let mut bits: Vec<bool> = Vec::new();
        let mut filled: usize = 0;
        while filled < target
            invariant
                bits@.len() == filled,
                filled <= target,
                target == spec_bit_count(expected_items, spec_hash_count(fp_ppm)),
                forall|j: int| 0 <= j < filled ==> !bits@[j],
            decreases target - filled,
        {
            bits.push(false);
            filled = filled + 1;
        }
        let seed_bytes = bytes_of(seed);
        Bloom { bits, k, seed: seed_bytes }
    }

    /// Sets the `k` bits that the hashes of `item` probe.  Insertion only
    /// ever sets bits, so every earlier positive answer is preserved.
    pub fn insert(&mut self, item: &str)
        requires
            old(self).wf(),
        ensures
            final(self).wf(),
            Bloom::spec_inserted(*old(self), *final(self), item.spec_bytes()),
            final(self).spec_contains(item.spec_bytes()),
    {
        let ghost pre = *self;
        let ghost seed = pre.spec_seed();
        let ghost bytes = item.spec_bytes();
        let base = self.item_hash_base(item);
        let m = self.bits.len();
        let mut i: u64 = 0;
        while i < self.k
            invariant
                self.wf(),
                self.k == pre.spec_k(),
                self.seed@ == seed,
                self.bits@.len() == pre.spec_bits().len(),
                m == self.bits@.len(),
                base == fnv_bytes(fnv_bytes(FNV_OFFSET, seed), bytes),
                bytes == item.spec_bytes(),
                i <= self.k,
                forall|j: int| 0 <= j < m && pre.spec_bits()[j] ==> self.bits@[j],
                forall|i2: u64| i2 < i ==> self.bits@[bloom_pos(seed, bytes, i2, m as int)],
                forall|j: int|
                    0 <= j < m && self.bits@[j] ==> pre.spec_bits()[j] || exists|i2: u64|
                        i2 < i && j == bloom_pos(seed, bytes, i2, m as int),
            decreases self.k - i,
        {
            let h = mul64(base ^ i, FNV_PRIME);
            let pos = (h % m as u64) as usize;
            proof {
                assert(h == bloom_hash(seed, bytes, i));
                assert(pos as int == bloom_pos(seed, bytes, i, m as int));
            }
            let ghost prev = self.bits@;
            let ghost iprev = i;
            self.bits[pos] = true;
            i = i + 1;
            proof {
                assert forall|i2: u64|
                    i2 < i implies self.bits@[bloom_pos(seed, bytes, i2, m as int)] by {
                    if i2 < iprev {
                        assert(prev[bloom_pos(seed, bytes, i2, m as int)]);
                    } else {
                        assert(i2 == iprev);
                        assert(bloom_pos(seed, bytes, i2, m as int) == pos as int);
                    }
                }
                assert forall|j: int|
                    0 <= j < m && self.bits@[j] implies pre.spec_bits()[j] || exists|i2: u64|
                        i2 < i && j == bloom_pos(seed, bytes, i2, m as int) by {
                    if j == pos as int {
                        assert(iprev < i && j == bloom_pos(seed, bytes, iprev, m as int));
                    } else {
                        assert(prev[j]);
                        if !pre.spec_bits()[j] {
                            let w = choose|i2: u64|
                                i2 < iprev && j == bloom_pos(seed, bytes, i2, m as int);
                            assert(w < i && j == bloom_pos(seed, bytes, w, m as int));
                        }
                    }
                }
            }
        }
        proof {
            assert forall|j: int|
                0 <= j < m implies self.bits@[j] == (pre.spec_bits()[j] || exists|i2: u64|
                    i2 < pre.spec_k() && j == bloom_pos(seed, bytes, i2, m as int)) by {
                if self.bits@[j] {
                } else {
                    if exists|i2: u64| i2 < pre.spec_k() && j == bloom_pos(seed, bytes, i2, m as int) {
                        let w = choose|i2: u64|
                            i2 < pre.spec_k() && j == bloom_pos(seed, bytes, i2, m as int);
                        assert(self.bits@[bloom_pos(seed, bytes, w, m as int)]);
                    }
                }
            }
            assert forall|i2: u64|
                i2 < self.spec_k() implies self.spec_bits()[bloom_pos(
                seed,
                bytes,
                i2,
                self.spec_bits().len() as int,
            )] by {
                assert(self.bits@[bloom_pos(seed, bytes, i2, m as int)]);
            }
        }
    }

    /// Reports whether `item` may have been inserted: true exactly when all
    /// `k` probed bits are set.  Never false for an inserted item; may be
    /// true for one that was not (a false positive).
    pub fn contains(&self, item: &str) -> (r: bool)
        requires
            self.wf(),
        ensures
            r == self.spec_contains(item.spec_bytes()),
    {
        let base = self.item_hash_base(item);
        let m = self.bits.len();
        let mut i: u64 = 0;
        while i < self.k
            invariant
                self.wf(),
                m == self.bits@.len(),
                base == fnv_bytes(fnv_bytes(FNV_OFFSET, self.spec_seed()), item.spec_bytes()),
                i <= self.k,
                forall|i2: u64|
                    i2 < i ==> self.spec_bits()[bloom_pos(
                        self.spec_seed(),
                        item.spec_bytes(),
                        i2,
                        m as int,
                    )],
            decreases self.k - i,
        {
            let h = mul64(base ^ i, FNV_PRIME);
            let pos = (h % m as u64) as usize;
            proof {
                assert(pos as int == bloom_pos(self.spec_seed(), item.spec_bytes(), i, m as int));
            }
            if !self.bits[pos] {
                return false;
            }
            i = i + 1;
        }
        true
    }

    /// Whether this filter is usable: at least one bit and one hash
    /// function.  Lets unverified callers test `wf` before relying on it.
    pub fn is_well_formed(&self) -> (r: bool)
        ensures
            r == self.wf(),
    {
        self.bits.len() >= 1 && self.k >= 1
    }

    /// A bit-for-bit copy of this filter.
    pub fn duplicate(&self) -> (r: Bloom)
        ensures
            r.spec_bits() == self.spec_bits(),
            r.spec_k() == self.spec_k(),
            r.spec_seed() == self.spec_seed(),
    {
        let bits = self.bits.clone();
        let seed = self.seed.clone();
        proof {
            assert(bits@ =~= self.bits@);
            assert(seed@ =~= self.seed@);
        }
        Bloom { bits, k: self.k, seed }
    }

    /// The shared FNV-1a state for `item`: seed bytes, then item bytes.
    fn item_hash_base(&self, item: &str) -> (r: u64)
        ensures
            r == fnv_bytes(fnv_bytes(FNV_OFFSET, self.spec_seed()), item.spec_bytes()),
    {
        let h = fnv_absorb(FNV_OFFSET, self.seed.as_slice());
        fnv_absorb(h, item.as_bytes())
    }
}

/// Exact 64-bit wrapping product, computed through a 128-bit intermediate.
fn mul64(a: u64, b: u64) -> (r: u64)
    ensures
        r == mul_mod64(a, b),
{
    proof {
        assert((a as int) * (b as int) < 0x100000000000000000000000000000000) by (nonlinear_arith)
            requires
                a <= 0xffffffffffffffffu64,
                b <= 0xffffffffffffffffu64,
        ;
    }
    let wide: u128 = (a as u128) * (b as u128);
    let rem: u128 = wide % 0x10000000000000000u128;
    rem as u64
}

/// FNV-1a absorption of a whole byte slice.
fn fnv_absorb(h0: u64, bytes: &[u8]) -> (r: u64)
    ensures
        r == fnv_bytes(h0, bytes@),
{
    proof {
        assert(bytes@.skip(0) =~= bytes@);
    }
    let mut h = h0;
    let mut i: usize = 0;
    while i < bytes.len()
        invariant
            i <= bytes@.len(),
            fnv_bytes(h, bytes@.skip(i as int)) == fnv_bytes(h0, bytes@),
        decreases bytes@.len() - i,
    {
        let b = bytes[i];
        proof {
            let rest = bytes@.skip(i as int);
            assert(rest[0] == b);
            assert(rest.skip(1) =~= bytes@.skip(i as int + 1));
        }
        h = mul64(h ^ (b as u64), FNV_PRIME);
        i = i + 1;
    }
    proof {
        assert(bytes@.skip(i as int) =~= Seq::<u8>::empty());
    }
    h
}

/// The derived hash count, as `spec_hash_count` states it.
fn hash_count(fp_ppm: u64) -> (r: u64)
    requires
        1 <= fp_ppm <= 999_999,
    ensures
        r == spec_hash_count(fp_ppm),
{
    proof {
        assert(1 <= 1_000_000int / fp_ppm as int <= 1_000_000) by (nonlinear_arith)
            requires
                1 <= fp_ppm <= 999_999,
        ;
    }
    let ratio = 1_000_000u64 / fp_ppm;
    let k = log2_floor_exec(ratio);
    if k < 1 {
        1
    } else if k > 20 {
        20
    } else {
        k
    }
}

/// Floor of the base-2 logarithm, as `log2_floor` states it.
fn log2_floor_exec(x: u64) -> (r: u64)
    requires
        1 <= x <= 1_000_000,
    ensures
        r == log2_floor(x as int),
{
    proof {
        lemma_log2_floor_le(x as int, 1_000_000int);
        assert(log2_floor(1_000_000int) == 19) by {
            reveal_with_fuel(log2_floor, 21);
        }
        lemma_log2_floor_nonneg(x as int);
    }
    let mut v = x;
    let mut r: u64 = 0;
    while v >= 2
        invariant
            1 <= v <= x,
            r + log2_floor(v as int) == log2_floor(x as int),
            log2_floor(x as int) <= 19,
            r <= 19,
        decreases v,
    {
        proof {
            lemma_log2_floor_nonneg(v as int / 2);
            assert(log2_floor(v as int) == 1 + log2_floor(v as int / 2));
        }
        v = v / 2;
        r = r + 1;
    }
    r
}

/// `log2_floor` is never negative.
proof fn lemma_log2_floor_nonneg(x: int)
    ensures
        log2_floor(x) >= 0,
    decreases x,
{
    if x >= 2 {
        lemma_log2_floor_nonneg(x / 2);
    }
}

/// `log2_floor` is monotone in its argument.
proof fn lemma_log2_floor_le(a: int, b: int)
    requires
        a <= b,
    ensures
        log2_floor(a) <= log2_floor(b),
    decreases b,
{
    if a < 2 {
        lemma_log2_floor_nonneg(b);
    } else {
        lemma_log2_floor_le(a / 2, b / 2);
    }
}

/// The bytes of a string, copied into an owned vector.
fn bytes_of(s: &str) -> (r: Vec<u8>)
    ensures
        r@ == s.spec_bytes(),
{
    let slice = s.as_bytes();
    let mut out: Vec<u8> = Vec::new();
    let mut i: usize = 0;
    while i < slice.len()
        invariant
            i <= slice@.len(),
            out@ == slice@.take(i as int),
            slice@ == s.spec_bytes(),
        decreases slice@.len() - i,
    {
        out.push(slice[i]);
        proof {
            assert(out@ =~= slice@.take(i as int + 1));
        }
        i = i + 1;
    }
    proof {
        assert(slice@.take(i as int) =~= slice@);
    }
    out
}

/// No false negatives: immediately after `item` is inserted, the filter
/// reports it present, whatever was inserted before.
pub proof fn lemma_insert_then_contains(pre: Bloom, post: Bloom, item: Seq<u8>)
    requires
        pre.wf(),
        Bloom::spec_inserted(pre, post, item),
    ensures
        post.spec_contains(item),
{
    let m = pre.spec_bits().len() as int;
    assert forall|i: u64|
        i < post.spec_k() implies post.spec_bits()[bloom_pos(post.spec_seed(), item, i, m)] by {
        let j = bloom_pos(pre.spec_seed(), item, i, m);
        assert(0 <= j < m);
        assert(exists|i2: u64| i2 < pre.spec_k() && j == bloom_pos(pre.spec_seed(), item, i2, m));
    }
}

/// A positive answer survives any later insertion: `contains` is monotone,
/// so an inserted item stays reported present for ever.
pub proof fn lemma_contains_monotone(pre: Bloom, post: Bloom, inserted: Seq<u8>, item: Seq<u8>)
    requires
        pre.wf(),
        Bloom::spec_inserted(pre, post, inserted),
        pre.spec_contains(item),
    ensures
        post.spec_contains(item),
{
    let m = pre.spec_bits().len() as int;
    assert forall|i: u64|
        i < post.spec_k() implies post.spec_bits()[bloom_pos(post.spec_seed(), item, i, m)] by {
        let j = bloom_pos(pre.spec_seed(), item, i, m);
        assert(0 <= j < m);
        assert(pre.spec_bits()[j]);
    }
}

} // verus!

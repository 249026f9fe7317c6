//! The integer side of Ken Perlin's classic "Improved Noise" (2002),
//! generalized with a seedable permutation table: building the table, and
//! looking up the hashes of the lattice corners around a point and the
//! gradient direction each hash selects.
//!
//! The permutation table is shuffled using whichever generator is chosen
//! from `crate::util::rng`: swap generators to see how each one affects the
//! terrain.
use vstd::prelude::*;
use crate::util::rng::{AnyRng, Rng64, RngKind, RngState, rng_state_step, seed_state};

verus! {

/// The table `0, 1, ..., 255`.
pub open spec fn identity_table() -> Seq<u8> {
    Seq::new(256, |i: int| i as u8)
}

/// `s` with its entries at `i` and `j` exchanged.
pub open spec fn swap_entries(s: Seq<u8>, i: int, j: int) -> Seq<u8> {
    s.update(i, s[j]).update(j, s[i])
}

/// The Fisher-Yates shuffle of the entries `0..=i` of `p`, driven by the
/// generator in state `g`: for `i` down to 1, a value `r` is drawn and
/// entry `i` is exchanged with entry `r % (i + 1)`.
pub open spec fn fisher_yates(p: Seq<u8>, g: RngState, i: nat) -> Seq<u8>
    decreases i,
{
    if i == 0 {
        p
    } else {
        let (g2, r) = rng_state_step(g);
        let j = (r as int) % (i as int + 1);
        fisher_yates(swap_entries(p, i as int, j), g2, (i - 1) as nat)
    }
}

/// The table `0..=255` shuffled by a generator of kind `kind` seeded with
/// `seed`.
pub open spec fn shuffled_table(seed: u64, kind: RngKind) -> Seq<u8> {
    fisher_yates(identity_table(), seed_state(kind, seed), 255)
}

/// The permutation table for a seed and a generator: the shuffled table,
/// written out twice, so that lookups never need to wrap.
pub open spec fn permutation_table(seed: u64, kind: RngKind) -> Seq<u8> {
    let p = shuffled_table(seed, kind);
    Seq::new(512, |i: int| p[i % 256])
}

/// The value `v` occurs among the first 256 entries of `s`.
pub open spec fn holds_value(s: Seq<u8>, v: u8) -> bool {
    exists|i: int| 0 <= i < 256 && #[trigger] s[i] == v
}

/// `s` holds every byte value exactly once.
pub open spec fn is_byte_permutation(s: Seq<u8>) -> bool {
    &&& s.len() == 256
    &&& forall|i: int, j: int| 0 <= i < j < 256 ==> s[i] != s[j]
    &&& forall|v: u8| #[trigger] holds_value(s, v)
}

/// `t` is a permutation of the byte values followed by a second copy of it.
pub open spec fn is_doubled_permutation(t: Seq<u8>) -> bool {
    &&& t.len() == 512
    &&& is_byte_permutation(t.subrange(0, 256))
    &&& forall|i: int| 0 <= i < 256 ==> #[trigger] t[i + 256] == t[i]
}

/// The table `0..=255` holds every byte value exactly once.
pub proof fn lemma_identity_is_permutation()
    ensures
        is_byte_permutation(identity_table()),
{
    let s = identity_table();
    assert forall|v: u8| #[trigger] holds_value(s, v) by {
        assert(s[v as int] == v);
    }
}

/// Exchanging two entries of a permutation gives a permutation.
pub proof fn lemma_swap_keeps_permutation(s: Seq<u8>, i: int, j: int)
    requires
        is_byte_permutation(s),
        0 <= i < 256,
        0 <= j < 256,
    ensures
        is_byte_permutation(swap_entries(s, i, j)),
{
    let t = swap_entries(s, i, j);
    assert forall|a: int, b: int| 0 <= a < b < 256 implies t[a] != t[b] by {
        let sa = if a == j {
            i
        } else if a == i {
            j
        } else {
            a
        };
        let sb = if b == j {
            i
        } else if b == i {
            j
        } else {
            b
        };
        assert(t[a] == s[sa]);
        assert(t[b] == s[sb]);
        assert(sa != sb);
        if sa < sb {
            assert(s[sa] != s[sb]);
        } else {
            assert(s[sb] != s[sa]);
        }
    }
    assert forall|v: u8| #[trigger] holds_value(t, v) by {
        assert(holds_value(s, v));
        let k = choose|k: int| 0 <= k < 256 && #[trigger] s[k] == v;
        let k2 = if k == i {
            j
        } else if k == j {
            i
        } else {
            k
        };
        assert(t[k2] == v);
    }
}

/// Whatever the generator draws, the Fisher-Yates shuffle of a permutation
/// is a permutation.
pub proof fn lemma_fisher_yates_permutes(p: Seq<u8>, g: RngState, i: nat)
    requires
        is_byte_permutation(p),
        i < 256,
    ensures
        is_byte_permutation(fisher_yates(p, g, i)),
    decreases i,
{
    if i > 0 {
        let (g2, r) = rng_state_step(g);
        let j = (r as int) % (i as int + 1);
        lemma_swap_keeps_permutation(p, i as int, j);
        lemma_fisher_yates_permutes(swap_entries(p, i as int, j), g2, (i - 1) as nat);
    }
}

/// A Fisher-Yates pass from position `i` down: with nothing left to shuffle
/// the table is unchanged; otherwise one value `r` is drawn from the
/// generator, entries `i` and `r % (i + 1)` are exchanged, and the pass goes
/// on from `i - 1` with the generator's next state.
pub proof fn lemma_fisher_yates_steps(p: Seq<u8>, g: RngState, i: nat)
    ensures
        i == 0 ==> fisher_yates(p, g, i) == p,
        i > 0 ==> ({
            let (g2, r) = <AnyRng as Rng64>::spec_step(g);
            let j = (r as int) % (i as int + 1);
            fisher_yates(p, g, i) == fisher_yates(
                p.update(i as int, p[j]).update(j, p[i as int]),
                g2,
                (i - 1) as nat,
            )
        }),
{
}

/// The permutation table of a seed and a generator kind is 512 entries
/// long, and entry `i` is entry `i % 256` of the table `0..=255` shuffled by
/// Fisher-Yates with the generator of that kind seeded with the whole seed.
pub proof fn lemma_permutation_table_is_shuffle(seed: u64, kind: RngKind)
    ensures
        permutation_table(seed, kind).len() == 512,
        forall|i: int|
            0 <= i < 512 ==> #[trigger] permutation_table(seed, kind)[i] == fisher_yates(
                Seq::new(256, |k: int| k as u8),
                seed_state(kind, seed),
                255,
            )[i % 256],
{
    assert(Seq::new(256, |k: int| k as u8) =~= identity_table());
}

/// The low 8 bits of a lattice coordinate: the coordinate modulo 256.
pub open spec fn lattice_cell(c: i32) -> int {
    (c & 255i32) as int
}

/// The hash of the lattice corner `(cx, cy)` in the table `t`.
pub open spec fn corner_hash(t: Seq<u8>, cx: int, cy: int) -> u8 {
    t[t[t[cx] as int + cy] as int]
}

/// The gradient direction a hash selects: its low three bits pick one of
/// eight directions in 2D.
pub open spec fn gradient_of(hash: u8) -> (i8, i8) {
    let k = hash % 8;
    if k == 0 {
        (1i8, 1i8)
    } else if k == 1 {
        (-1i8, 1i8)
    } else if k == 2 {
        (1i8, -1i8)
    } else if k == 3 {
        (-1i8, -1i8)
    } else if k == 4 {
        (1i8, 0i8)
    } else if k == 5 {
        (-1i8, 0i8)
    } else if k == 6 {
        (0i8, 1i8)
    } else {
        (0i8, -1i8)
    }
}

/// The lattice repeats every 256 cells along each axis.
pub proof fn lemma_lattice_wraps(c: i32)
    requires
        c <= i32::MAX - 256,
    ensures
        lattice_cell((c + 256) as i32) == lattice_cell(c),
        0 <= lattice_cell(c) < 256,
{
    assert(((c + 256) as i32) & 255i32 == c & 255i32) by (bit_vector)
        requires
            c <= i32::MAX - 256,
    ;
    assert(0 <= c & 255i32 < 256) by (bit_vector);
}

/// In a doubled permutation table, entries that are 256 apart agree, and
/// two entries of the table are equal only at positions 256 apart.
proof fn lemma_doubled_entries(t: Seq<u8>, i: int, j: int)
    requires
        is_doubled_permutation(t),
        0 <= i < 512,
        0 <= j < 512,
    ensures
        t[i] == t[i % 256],
        t[i] == t[j] <==> i % 256 == j % 256,
{
    let h = t.subrange(0, 256);
    if i >= 256 {
        assert(t[(i - 256) + 256] == t[i - 256]);
    }
    if j >= 256 {
        assert(t[(j - 256) + 256] == t[j - 256]);
    }
    let a = i % 256;
    let b = j % 256;
    assert(h[a] == t[a] && h[b] == t[b]);
    if a < b {
        assert(h[a] != h[b]);
    } else if b < a {
        assert(h[b] != h[a]);
    }
}

/// Along a row of the lattice, the 256 cells of a period have pairwise
/// different corner hashes: the table is applied as a permutation.
pub proof fn lemma_row_hashes_distinct(t: Seq<u8>, cy: int, a: int, b: int)
    requires
        is_doubled_permutation(t),
        0 <= cy < 256,
        0 <= a < b < 256,
    ensures
        corner_hash(t, a, cy) != corner_hash(t, b, cy),
{
    let ia = t[a] as int + cy;
    let ib = t[b] as int + cy;
    lemma_doubled_entries(t, a, b);
    lemma_doubled_entries(t, ia, ib);
    lemma_doubled_entries(t, t[ia] as int, t[ib] as int);
    assert(t[a] != t[b]);
    assert(ia % 256 != ib % 256);
}

pub struct Perlin {
    /// Permutation table, duplicated (0..256 then repeated) so lookups
    /// never need to wrap manually.
    perm: Vec<u8>,
}

impl Perlin {
    /// The table is a permutation of the byte values, written out twice.
    #[verifier::type_invariant]
    spec fn table_is_doubled_permutation(self) -> bool {
        is_doubled_permutation(self.perm@)
    }
}

impl View for Perlin {
    type V = Seq<u8>;

    closed spec fn view(&self) -> Seq<u8> {
        self.perm@
    }
}

impl Perlin {
    /// Build a new permutation table from a seed and a choice of generator.
    /// Same seed + same generator kind -> same terrain, every time.
    pub fn new(seed: u64, rng_kind: RngKind) -> (r: Self)
        ensures
            r@ == permutation_table(seed, rng_kind),
            is_doubled_permutation(r@),
            r@.len() == 512,
            r@.subrange(0, 256) == fisher_yates(
                Seq::new(256, |k: int| k as u8),
                seed_state(rng_kind, seed),
                255,
            ),
            forall|i: int| 0 <= i < 512 ==> #[trigger] r@[i] == r@[i % 256],
    {
        let mut p: Vec<u8> = Vec::new();
        let mut k: usize = 0;
        while k < 256
            invariant
                k <= 256,
                p@.len() == k,
                forall|m: int| 0 <= m < k ==> #[trigger] p@[m] == m as u8,
            decreases 256 - k,
        {
            p.push(k as u8);
            k = k + 1;
        }
        assert(p@ =~= identity_table());
        let mut rng: AnyRng = rng_kind.build(seed);

        // Fisher-Yates shuffle driven by the chosen generator.
        let mut i: usize = 255;
        while i >= 1
            invariant
                i <= 255,
                p@.len() == 256,
                fisher_yates(p@, rng@, i as nat) == shuffled_table(seed, rng_kind),
            decreases i,
        {
            let ghost p0 = p@;
            let ghost g0 = rng@;
            let r = rng.next_u64();
            let j = (r % (i as u64 + 1)) as usize;
            let pi = p[i];
            let pj = p[j];
            p.set(i, pj);
            p.set(j, pi);
            assert(p@ =~= swap_entries(p0, i as int, j as int));
            i = i - 1;
        }
        let ghost shuffled = p@;
        proof {
            lemma_identity_is_permutation();
            lemma_fisher_yates_permutes(identity_table(), seed_state(rng_kind, seed), 255);
        }

        let mut perm: Vec<u8> = Vec::new();
        let mut n: usize = 0;
        while n < 512
            invariant
                n <= 512,
                p@ == shuffled,
                shuffled.len() == 256,
                perm@.len() == n,
                forall|m: int| 0 <= m < n ==> #[trigger] perm@[m] == shuffled[m % 256],
            decreases 512 - n,
        {
            assert(n & 255 == n % 256) by (bit_vector);
            perm.push(p[n & 255]);
            n = n + 1;
        }
        assert(perm@ =~= permutation_table(seed, rng_kind));
        assert(Seq::new(256, |k: int| k as u8) =~= identity_table());
        assert(perm@.subrange(0, 256) =~= shuffled);
        assert forall|m: int| 0 <= m < 256 implies #[trigger] perm@[m + 256] == perm@[m] by {
            assert((m + 256) % 256 == m % 256);
        }
        Self { perm }
    }

    /// The hashes of the four lattice corners around the cell `(xi, yi)`
    /// (each taken modulo 256), in the order `(xi, yi)`, `(xi + 1, yi)`,
    /// `(xi, yi + 1)`, `(xi + 1, yi + 1)`.
    pub fn corner_hashes(&self, xi: i32, yi: i32) -> (h: (u8, u8, u8, u8))
        ensures
            h.0 == corner_hash(self@, lattice_cell(xi), lattice_cell(yi)),
            h.1 == corner_hash(self@, lattice_cell(xi) + 1, lattice_cell(yi)),
            h.2 == corner_hash(self@, lattice_cell(xi), lattice_cell(yi) + 1),
            h.3 == corner_hash(self@, lattice_cell(xi) + 1, lattice_cell(yi) + 1),
            ({
                let t = self@;
                let x = (xi & 255i32) as int;
                let y = (yi & 255i32) as int;
                &&& h.0 == t[t[t[x] + y] as int]
                &&& h.1 == t[t[t[x + 1] + y] as int]
                &&& h.2 == t[t[t[x] + y + 1] as int]
                &&& h.3 == t[t[t[x + 1] + y + 1] as int]
            }),
    {
        proof {
            use_type_invariant(self);
        }
        assert(0 <= xi & 255i32 < 256) by (bit_vector);
        assert(0 <= yi & 255i32 < 256) by (bit_vector);
        let x = (xi & 255) as usize;
        let y = (yi & 255) as usize;

        let a = self.perm[x] as usize + y;
        let aa = self.perm[a] as usize;
        let ab = self.perm[a + 1] as usize;
        let b = self.perm[x + 1] as usize + y;
        let ba = self.perm[b] as usize;
        let bb = self.perm[b + 1] as usize;

        (self.perm[aa], self.perm[ba], self.perm[ab], self.perm[bb])
    }

    /// Maps the low 3 bits of a hash to one of 8 gradient directions in 2D.
    pub fn gradient(hash: u8) -> (g: (i8, i8))
        ensures
            g == gradient_of(hash),
            hash % 8 == 0 ==> g == (1i8, 1i8),
            hash % 8 == 1 ==> g == (-1i8, 1i8),
            hash % 8 == 2 ==> g == (1i8, -1i8),
            hash % 8 == 3 ==> g == (-1i8, -1i8),
            hash % 8 == 4 ==> g == (1i8, 0i8),
            hash % 8 == 5 ==> g == (-1i8, 0i8),
            hash % 8 == 6 ==> g == (0i8, 1i8),
            hash % 8 == 7 ==> g == (0i8, -1i8),
    {
        assert(hash & 7 == hash % 8) by (bit_vector);
        match hash & 7 {
            0 => (1, 1),
            1 => (-1, 1),
            2 => (1, -1),
            3 => (-1, -1),
            4 => (1, 0),
            5 => (-1, 0),
            6 => (0, 1),
            _ => (0, -1),
        }
    }
}

} // verus!

//! A small zoo of pseudo-random number generators, all written from scratch,
//! so that they can be swapped in and out to see how each one affects the
//! permutation table (and therefore the terrain) that Perlin noise is built
//! from. None of them is cryptographically secure: they are chosen for speed,
//! simplicity, and for being easy to seed with a single `u64`.
//!
//! Every generator is modelled by its state (its view) and a step function
//! on that state, which returns the next state and the value drawn.
use vstd::prelude::*;
use vstd::string::*;

verus! {

// ---------------------------------------------------------------------------
// Arithmetic modulo 2^64
// ---------------------------------------------------------------------------

/// 2^64, the modulus of `u64` arithmetic.
pub open spec fn pow2_64() -> int {
    0x1_0000_0000_0000_0000
}

/// `a + b` taken modulo 2^64.
pub open spec fn add_mod64(a: u64, b: u64) -> u64 {
    ((a + b) % pow2_64()) as u64
}

/// `a * b` taken modulo 2^64.
pub open spec fn mul_mod64(a: u64, b: u64) -> u64 {
    ((a * b) % pow2_64()) as u64
}

proof fn lemma_wrapping_add(a: u64, b: u64)
    ensures
        vstd::wrapping::u64_specs::wrapping_add(a, b) == add_mod64(a, b),
{
}

proof fn lemma_wrapping_mul(a: u64, b: u64)
    ensures
        vstd::wrapping::u64_specs::wrapping_mul(a, b) == mul_mod64(a, b),
{
}

// ---------------------------------------------------------------------------
// The common interface
// ---------------------------------------------------------------------------

/// Common interface every generator below implements.
///
/// A generator is modelled by its view, the state it is in; `spec_step`
/// gives the state after one draw and the value drawn.
pub trait Rng64: View + Sized {
    /// The state after one draw from `state`, and the value drawn.
    spec fn spec_step(state: Self::V) -> (Self::V, u64);

    /// Returns the next pseudo-random 64-bit value.
    fn next_u64(&mut self) -> (r: u64)
        ensures
            (final(self)@, r) == Self::spec_step(old(self)@),
    ;
}

// ---------------------------------------------------------------------------
// SplitMix64
// ---------------------------------------------------------------------------

/// The increment SplitMix64 adds to its state on every draw.
pub const SPLITMIX64_GAMMA: u64 = 0x9E3779B97F4A7C15;

/// SplitMix64's output mixer.
pub open spec fn splitmix64_mix(z: u64) -> u64 {
    let z1 = mul_mod64(z ^ (z >> 30u64), 0xBF58476D1CE4E5B9u64);
    let z2 = mul_mod64(z1 ^ (z1 >> 27u64), 0x94D049BB133111EBu64);
    z2 ^ (z2 >> 31u64)
}

/// One SplitMix64 draw: the state advances by the gamma, and the output is
/// the new state run through the mixer.
pub open spec fn splitmix64_step(state: u64) -> (u64, u64) {
    let s = add_mod64(state, SPLITMIX64_GAMMA);
    (s, splitmix64_mix(s))
}

/// SplitMix64, Sebastiano Vigna's fast, simple generator. Often used just
/// to seed other generators because of its excellent avalanche behavior,
/// but it is a perfectly fine standalone generator too.
pub struct SplitMix64 {
    state: u64,
}

impl View for SplitMix64 {
    type V = u64;

    closed spec fn view(&self) -> u64 {
        self.state
    }
}

impl SplitMix64 {
    pub fn new(seed: u64) -> (r: Self)
        ensures
            r@ == seed,
    {
        Self { state: seed }
    }
}

impl Rng64 for SplitMix64 {
    open spec fn spec_step(state: u64) -> (u64, u64) {
        splitmix64_step(state)
    }

    fn next_u64(&mut self) -> (r: u64)
        ensures
            final(self)@ == (old(self)@ + 0x9E3779B97F4A7C15int) % 0x1_0000_0000_0000_0000int,
    {
        proof {
            lemma_wrapping_add(self.state, SPLITMIX64_GAMMA);
            lemma_splitmix64_draw(self.state);
        }
        self.state = self.state.wrapping_add(SPLITMIX64_GAMMA);
        let mut z = self.state;
        proof {
            lemma_wrapping_mul(z ^ (z >> 30u64), 0xBF58476D1CE4E5B9u64);
        }
        z = (z ^ (z >> 30)).wrapping_mul(0xBF58476D1CE4E5B9);
        proof {
            lemma_wrapping_mul(z ^ (z >> 27u64), 0x94D049BB133111EBu64);
        }
        z = (z ^ (z >> 27)).wrapping_mul(0x94D049BB133111EB);
        z ^ (z >> 31)
    }
}

// ---------------------------------------------------------------------------
// xorshift64*
// ---------------------------------------------------------------------------

/// The state xorshift64* starts from when it is seeded with 0.
pub const XORSHIFT64_ZERO_SEED_STATE: u64 = 0xDEAD_BEEF_CAFE_F00D;

/// The xorshift core of xorshift64*: three shift-xor steps.
pub open spec fn xorshift64_core(x: u64) -> u64 {
    let a = x ^ (x >> 12u64);
    let b = a ^ (a << 25u64);
    b ^ (b >> 27u64)
}

/// One xorshift64* draw: the state goes through the xorshift core, and the
/// output is the new state times Vigna's multiplier, modulo 2^64.
pub open spec fn xorshift64star_step(state: u64) -> (u64, u64) {
    let x = xorshift64_core(state);
    (x, mul_mod64(x, 0x2545_F491_4F6C_DD1Du64))
}

/// The xorshift core sends 0 to 0 and nothing else to 0: a zero state is
/// stuck at zero forever, and a non-zero state never reaches zero.
pub proof fn lemma_xorshift64_core_zero(x: u64)
    ensures
        xorshift64_core(x) == 0 <==> x == 0,
{
    assert(((x ^ (x >> 12u64)) ^ ((x ^ (x >> 12u64)) << 25u64)) ^ (((x ^ (x >> 12u64)) ^ ((x
        ^ (x >> 12u64)) << 25u64)) >> 27u64) == 0 <==> x == 0) by (bit_vector);
}

/// xorshift64*: George Marsaglia's xorshift core with a Vigna multiplier
/// applied to the output to fix its statistically weak low bits.
pub struct Xorshift64Star {
    state: u64,
}

impl Xorshift64Star {
    /// A xorshift state of zero never leaves zero.
    #[verifier::type_invariant]
    spec fn state_is_nonzero(self) -> bool {
        self.state != 0
    }
}

impl View for Xorshift64Star {
    type V = u64;

    closed spec fn view(&self) -> u64 {
        self.state
    }
}

impl Xorshift64Star {
    pub fn new(seed: u64) -> (r: Self)
        ensures
            r@ == (if seed == 0 {
                XORSHIFT64_ZERO_SEED_STATE
            } else {
                seed
            }),
            r@ != 0,
    {
        // xorshift needs a non-zero seed or it gets stuck at 0 forever.
        Self { state: if seed == 0 { XORSHIFT64_ZERO_SEED_STATE } else { seed } }
    }
}

impl Rng64 for Xorshift64Star {
    open spec fn spec_step(state: u64) -> (u64, u64) {
        xorshift64star_step(state)
    }

    fn next_u64(&mut self) -> (r: u64)
        ensures
            final(self)@ != 0,
            r == (final(self)@ * 0x2545_F491_4F6C_DD1Dint) % 0x1_0000_0000_0000_0000int,
    {
        proof {
            use_type_invariant(&*self);
            lemma_xorshift64_core_zero(self.state);
            lemma_xorshift64star_draw(self.state);
        }
        let mut x = self.state;
        x ^= x >> 12;
        x ^= x << 25;
        x ^= x >> 27;
        self.state = x;
        proof {
            lemma_wrapping_mul(x, 0x2545_F491_4F6C_DD1Du64);
        }
        x.wrapping_mul(0x2545_F491_4F6C_DD1D)
    }
}

// ---------------------------------------------------------------------------
// xorshift128+
// ---------------------------------------------------------------------------

/// One xorshift128+ draw on the state `(s0, s1)`: the new first half is the
/// old second half, the new second half mixes both, and the output is the
/// sum of the two new halves modulo 2^64.
pub open spec fn xorshift128plus_step(state: (u64, u64)) -> ((u64, u64), u64) {
    let (s0, s1) = state;
    let a = s0 ^ (s0 << 23u64);
    let b = a ^ (a >> 17u64);
    let c = b ^ s1;
    let n1 = c ^ (s1 >> 26u64);
    ((s1, n1), add_mod64(s1, n1))
}

/// The state xorshift128+ starts from: two SplitMix64 draws from the seed,
/// with a zero first half replaced by 1 and a zero second half by 2.
pub open spec fn xorshift128plus_seed_state(seed: u64) -> (u64, u64) {
    let (g1, a) = splitmix64_step(seed);
    let (_g2, b) = splitmix64_step(g1);
    (if a == 0 {
        1u64
    } else {
        a
    }, if b == 0 {
        2u64
    } else {
        b
    })
}

/// A xorshift128+ state that is not all zero never becomes all zero.
pub proof fn lemma_xorshift128plus_nonzero(state: (u64, u64))
    requires
        !(state.0 == 0 && state.1 == 0),
    ensures
        !(xorshift128plus_step(state).0.0 == 0 && xorshift128plus_step(state).0.1 == 0),
{
    let (s0, s1) = state;
    assert(s1 == 0 && s0 != 0 ==> (((s0 ^ (s0 << 23u64)) ^ ((s0 ^ (s0 << 23u64)) >> 17u64)) ^ s1)
        ^ (s1 >> 26u64) != 0) by (bit_vector);
}

/// xorshift128+: a larger-state xorshift variant (as used in early V8) with
/// better statistical quality and a longer period than xorshift64*.
pub struct Xorshift128Plus {
    s0: u64,
    s1: u64,
}

impl Xorshift128Plus {
    /// The all-zero state is a fixed point of xorshift, so it is never held.
    #[verifier::type_invariant]
    spec fn state_is_not_all_zero(self) -> bool {
        !(self.s0 == 0 && self.s1 == 0)
    }
}

impl View for Xorshift128Plus {
    type V = (u64, u64);

    closed spec fn view(&self) -> (u64, u64) {
        (self.s0, self.s1)
    }
}

impl Xorshift128Plus {
    pub fn new(seed: u64) -> (r: Self)
        ensures
            r@ == xorshift128plus_seed_state(seed),
            r@.0 != 0,
            r@.1 != 0,
            ({
                let (g1, d1) = <SplitMix64 as Rng64>::spec_step(seed);
                let d2 = <SplitMix64 as Rng64>::spec_step(g1).1;
                &&& d1 != 0 ==> r@.0 == d1
                &&& d2 != 0 ==> r@.1 == d2
                &&& d1 == 0 ==> r@.0 == 1
                &&& d2 == 0 ==> r@.1 == 2
            }),
    {
        // Spin up both halves of the state with SplitMix64 so a single u64
        // seed still produces well-distributed initial state.
        let mut seeder = SplitMix64::new(seed);
        let s0 = seeder.next_u64();
        let s1 = seeder.next_u64();
        Self { s0: if s0 == 0 { 1 } else { s0 }, s1: if s1 == 0 { 2 } else { s1 } }
    }
}

impl Rng64 for Xorshift128Plus {
    open spec fn spec_step(state: (u64, u64)) -> ((u64, u64), u64) {
        xorshift128plus_step(state)
    }

    fn next_u64(&mut self) -> (r: u64)
        ensures
            !(final(self)@.0 == 0 && final(self)@.1 == 0),
            final(self)@.0 == old(self)@.1,
            r == (final(self)@.0 + final(self)@.1) % 0x1_0000_0000_0000_0000int,
    {
        proof {
            use_type_invariant(&*self);
            lemma_xorshift128plus_nonzero((self.s0, self.s1));
            lemma_xorshift128plus_draw(self.s0, self.s1);
        }
        let mut s1 = self.s0;
        let s0 = self.s1;
        s1 ^= s1 << 23;
        s1 ^= s1 >> 17;
        s1 ^= s0;
        s1 ^= s0 >> 26;
        *self = Self { s0, s1 };
        proof {
            lemma_wrapping_add(s0, s1);
        }
        self.s0.wrapping_add(self.s1)
    }
}

// ---------------------------------------------------------------------------
// PCG32
// ---------------------------------------------------------------------------

/// The multiplier of PCG32's underlying linear congruential step.
pub const PCG32_MULTIPLIER: u64 = 6364136223846793005;

/// PCG32's state transition: a linear congruential step modulo 2^64.
pub open spec fn pcg32_advance(state: u64, inc: u64) -> u64 {
    add_mod64(mul_mod64(state, PCG32_MULTIPLIER), inc)
}

/// `x` rotated right by `r` bits, for `r < 32`.
pub open spec fn rotate_right32(x: u32, r: u32) -> u32 {
    (x >> r) | (x << (((32 - r) % 32) as u32))
}

/// PCG32's output permutation (XSH-RR) of the state before the step.
pub open spec fn pcg32_output(state: u64) -> u32 {
    rotate_right32((((state >> 18u64) ^ state) >> 27u64) as u32, (state >> 59u64) as u32)
}

/// One 32-bit PCG32 draw on the state `(state, inc)`.
pub open spec fn pcg32_step32(st: (u64, u64)) -> ((u64, u64), u32) {
    ((pcg32_advance(st.0, st.1), st.1), pcg32_output(st.0))
}

/// One 64-bit PCG32 draw: two 32-bit draws, the first giving the high half
/// of the result and the second the low half.
pub open spec fn pcg32_step(st: (u64, u64)) -> ((u64, u64), u64) {
    let (st1, hi) = pcg32_step32(st);
    let (st2, lo) = pcg32_step32(st1);
    (st2, (hi as int * 0x1_0000_0000 + lo as int) as u64)
}

/// The state `(state, inc)` PCG32 starts from for a seed and a stream: the
/// increment is `2 * stream + 1` (modulo 2^64), and the state is the seed
/// advanced once.
pub open spec fn pcg32_seed_state(seed: u64, stream: u64) -> (u64, u64) {
    let inc = (stream << 1u64) | 1u64;
    (pcg32_advance(seed, inc), inc)
}

/// PCG32 (XSH-RR variant), Melissa O'Neill's permuted congruential
/// generator. Small state, passes most statistical test suites.
pub struct Pcg32 {
    state: u64,
    inc: u64,
}

impl Pcg32 {
    /// The increment of a PCG stream is odd.
    #[verifier::type_invariant]
    spec fn increment_is_odd(self) -> bool {
        self.inc % 2 == 1
    }
}

impl View for Pcg32 {
    type V = (u64, u64);

    closed spec fn view(&self) -> (u64, u64) {
        (self.state, self.inc)
    }
}

impl Pcg32 {
    pub fn new(seed: u64, stream: u64) -> (r: Self)
        ensures
            r@ == pcg32_seed_state(seed, stream),
            r@.1 % 2 == 1,
            r@.1 == (2 * stream + 1) % 0x1_0000_0000_0000_0000int,
            r@.0 == (seed * 6364136223846793005int + r@.1) % 0x1_0000_0000_0000_0000int,
    {
        assert((stream << 1u64) | 1u64 == ((2 * stream + 1) % 0x1_0000_0000_0000_0000int) as u64)
            by (bit_vector);
        proof {
            let inc = (stream << 1u64) | 1u64;
            vstd::arithmetic::div_mod::lemma_add_mod_noop(
                seed * 6364136223846793005int,
                inc as int,
                0x1_0000_0000_0000_0000int,
            );
        }
        assert(((stream << 1u64) | 1u64) % 2 == 1) by (bit_vector);
        let mut rng = Self { state: 0, inc: (stream << 1) | 1 };
        proof {
            lemma_wrapping_add(0, seed);
        }
        rng.state = rng.state.wrapping_add(seed);
        rng.next_u32_raw();
        rng
    }

    fn next_u32_raw(&mut self) -> (r: u32)
        ensures
            (final(self)@, r) == pcg32_step32(old(self)@),
    {
        proof {
            use_type_invariant(&*self);
        }
        let old_state = self.state;
        proof {
            lemma_wrapping_mul(old_state, PCG32_MULTIPLIER);
            lemma_wrapping_add(mul_mod64(old_state, PCG32_MULTIPLIER), self.inc);
        }
        self.state = old_state.wrapping_mul(PCG32_MULTIPLIER).wrapping_add(self.inc);
        let xorshifted = #[verifier::truncate] ((((old_state >> 18) ^ old_state) >> 27) as u32);
        let rot = #[verifier::truncate] ((old_state >> 59) as u32);
        assert(rot < 32) by (bit_vector)
            requires
                rot == (old_state >> 59u64) as u32,
        ;
        let back = 32u32.wrapping_sub(rot) & 31;
        assert(back == ((32 - rot) % 32) as u32) by (bit_vector)
            requires
                rot < 32,
                back == vstd::wrapping::u32_specs::wrapping_sub(32u32, rot) & 31u32,
        ;
        (xorshifted >> rot) | (xorshifted << back)
    }
}

impl Rng64 for Pcg32 {
    open spec fn spec_step(st: (u64, u64)) -> ((u64, u64), u64) {
        pcg32_step(st)
    }

    fn next_u64(&mut self) -> (r: u64)
        ensures
            final(self)@.1 == old(self)@.1,
            r as int / 0x1_0000_0000int == pcg32_xsh_rr(old(self)@.0),
    {
        proof {
            lemma_pcg32_draw(self.state, self.inc);
        }
        let hi = self.next_u32_raw() as u64;
        let lo = self.next_u32_raw() as u64;
        assert((hi << 32u64) | lo == (hi as int * 0x1_0000_0000 + lo as int) as u64) by (bit_vector)
            requires
                hi < 0x1_0000_0000,
                lo < 0x1_0000_0000,
        ;
        (hi << 32) | lo
    }
}

// ---------------------------------------------------------------------------
// LCG64
// ---------------------------------------------------------------------------

/// The multiplier of the MMIX linear congruential generator.
pub const LCG64_MULTIPLIER: u64 = 6364136223846793005;

/// The increment of the MMIX linear congruential generator.
pub const LCG64_INCREMENT: u64 = 1442695040888963407;

/// One LCG64 draw: `state * a + c` modulo 2^64, which is both the new state
/// and the value drawn.
pub open spec fn lcg64_step(state: u64) -> (u64, u64) {
    let s = add_mod64(mul_mod64(state, LCG64_MULTIPLIER), LCG64_INCREMENT);
    (s, s)
}

/// A classic linear congruential generator (using Knuth's MMIX constants).
/// Lower statistical quality than the others: a "control group" to see what
/// a weaker generator does to the terrain by comparison.
pub struct Lcg64 {
    state: u64,
}

impl View for Lcg64 {
    type V = u64;

    closed spec fn view(&self) -> u64 {
        self.state
    }
}

impl Lcg64 {
    pub fn new(seed: u64) -> (r: Self)
        ensures
            r@ == seed,
    {
        Self { state: seed }
    }
}

impl Rng64 for Lcg64 {
    open spec fn spec_step(state: u64) -> (u64, u64) {
        lcg64_step(state)
    }

    fn next_u64(&mut self) -> (r: u64)
        ensures
            r == final(self)@,
            final(self)@ == (old(self)@ * 6364136223846793005int + 1442695040888963407int)
                % 0x1_0000_0000_0000_0000int,
    {
        proof {
            lemma_lcg64_draw(self.state);
            lemma_wrapping_mul(self.state, LCG64_MULTIPLIER);
            lemma_wrapping_add(mul_mod64(self.state, LCG64_MULTIPLIER), LCG64_INCREMENT);
        }
        self.state = self.state.wrapping_mul(LCG64_MULTIPLIER).wrapping_add(LCG64_INCREMENT);
        self.state
    }
}

// ---------------------------------------------------------------------------
// WyRand
// ---------------------------------------------------------------------------

/// The increment WyRand adds to its state on every draw.
pub const WYRAND_INCREMENT: u64 = 0xA076_1D64_78BD_642F;

/// The constant WyRand xors into its state before multiplying.
pub const WYRAND_XOR: u64 = 0xE703_7ED1_A0B4_28DB;

/// One WyRand draw: the state advances by the increment; the output is the
/// 128-bit product of the new state and the new state xor a constant, with
/// its high 64 bits folded onto its low 64 bits by xor.
pub open spec fn wyrand_step(state: u64) -> (u64, u64) {
    let s = add_mod64(state, WYRAND_INCREMENT);
    let t = (s as u128 * (s ^ WYRAND_XOR) as u128) as u128;
    (s, ((t >> 64u128) ^ t) as u64)
}

/// A wyhash-style mixer (inspired by Wang Yi's wyrand): very few
/// instructions per output, relying on a 128-bit multiply to scramble bits.
pub struct WyRand {
    state: u64,
}

impl View for WyRand {
    type V = u64;

    closed spec fn view(&self) -> u64 {
        self.state
    }
}

impl WyRand {
    pub fn new(seed: u64) -> (r: Self)
        ensures
            r@ == seed,
    {
        Self { state: seed }
    }
}

impl Rng64 for WyRand {
    open spec fn spec_step(state: u64) -> (u64, u64) {
        wyrand_step(state)
    }

    fn next_u64(&mut self) -> (r: u64)
        ensures
            final(self)@ == (old(self)@ + 0xA076_1D64_78BD_642Fint) % 0x1_0000_0000_0000_0000int,
            ({
                let s = final(self)@;
                let p = s * (s ^ 0xE703_7ED1_A0B4_28DBu64);
                r == ((p / 0x1_0000_0000_0000_0000int) as u64) ^ ((p % 0x1_0000_0000_0000_0000int) as u64)
            }),
    {
        proof {
            lemma_wrapping_add(self.state, WYRAND_INCREMENT);
            lemma_wyrand_draw(self.state);
        }
        self.state = self.state.wrapping_add(WYRAND_INCREMENT);
        let a = self.state as u128;
        let b = (self.state ^ WYRAND_XOR) as u128;
        assert(a * b < 0x1_0000_0000_0000_0000_0000_0000_0000_0000) by (nonlinear_arith)
            requires
                a < 0x1_0000_0000_0000_0000u128,
                b < 0x1_0000_0000_0000_0000u128,
        ;
        let t = a.wrapping_mul(b);
        ((t >> 64) ^ t) as u64
    }
}

// ---------------------------------------------------------------------------
// Choosing a generator
// ---------------------------------------------------------------------------

/// The state of any generator of this module, tagged with its kind.
pub enum RngState {
    SplitMix64(u64),
    Xorshift64Star(u64),
    Xorshift128Plus((u64, u64)),
    Pcg32((u64, u64)),
    Lcg64(u64),
    WyRand(u64),
}

/// One draw from a tagged state, by the step of its kind.
pub open spec fn rng_state_step(st: RngState) -> (RngState, u64) {
    match st {
        RngState::SplitMix64(s) => {
            let (n, r) = splitmix64_step(s);
            (RngState::SplitMix64(n), r)
        },
        RngState::Xorshift64Star(s) => {
            let (n, r) = xorshift64star_step(s);
            (RngState::Xorshift64Star(n), r)
        },
        RngState::Xorshift128Plus(s) => {
            let (n, r) = xorshift128plus_step(s);
            (RngState::Xorshift128Plus(n), r)
        },
        RngState::Pcg32(s) => {
            let (n, r) = pcg32_step(s);
            (RngState::Pcg32(n), r)
        },
        RngState::Lcg64(s) => {
            let (n, r) = lcg64_step(s);
            (RngState::Lcg64(n), r)
        },
        RngState::WyRand(s) => {
            let (n, r) = wyrand_step(s);
            (RngState::WyRand(n), r)
        },
    }
}

/// A generator of any of the kinds above, chosen at run time.
pub enum AnyRng {
    SplitMix64(SplitMix64),
    Xorshift64Star(Xorshift64Star),
    Xorshift128Plus(Xorshift128Plus),
    Pcg32(Pcg32),
    Lcg64(Lcg64),
    WyRand(WyRand),
}

impl View for AnyRng {
    type V = RngState;

    open spec fn view(&self) -> RngState {
        match self {
            AnyRng::SplitMix64(g) => RngState::SplitMix64(g@),
            AnyRng::Xorshift64Star(g) => RngState::Xorshift64Star(g@),
            AnyRng::Xorshift128Plus(g) => RngState::Xorshift128Plus(g@),
            AnyRng::Pcg32(g) => RngState::Pcg32(g@),
            AnyRng::Lcg64(g) => RngState::Lcg64(g@),
            AnyRng::WyRand(g) => RngState::WyRand(g@),
        }
    }
}

impl Rng64 for AnyRng {
    open spec fn spec_step(st: RngState) -> (RngState, u64) {
        rng_state_step(st)
    }

    fn next_u64(&mut self) -> (r: u64) {
        match self {
            AnyRng::SplitMix64(g) => g.next_u64(),
            AnyRng::Xorshift64Star(g) => g.next_u64(),
            AnyRng::Xorshift128Plus(g) => g.next_u64(),
            AnyRng::Pcg32(g) => g.next_u64(),
            AnyRng::Lcg64(g) => g.next_u64(),
            AnyRng::WyRand(g) => g.next_u64(),
        }
    }
}

/// The stream PCG32 is built on when it is chosen through `RngKind`.
pub const PCG32_DEFAULT_STREAM: u64 = 0xDA3E_39CB_94B9_5BDB;

/// Selects which generator to use. Flip this in the terrain settings (or
/// pass a name on the command line) and re-run to compare.
#[derive(Clone, Copy, Debug, PartialEq, Eq, Structural)]
pub enum RngKind {
    SplitMix64,
    Xorshift64Star,
    Xorshift128Plus,
    Pcg32,
    Lcg64,
    WyRand,
}

/// The state a generator of kind `kind` starts from for `seed`.
pub open spec fn seed_state(kind: RngKind, seed: u64) -> RngState {
    match kind {
        RngKind::SplitMix64 => RngState::SplitMix64(seed),
        RngKind::Xorshift64Star => RngState::Xorshift64Star(
            if seed == 0 {
                XORSHIFT64_ZERO_SEED_STATE
            } else {
                seed
            },
        ),
        RngKind::Xorshift128Plus => RngState::Xorshift128Plus(xorshift128plus_seed_state(seed)),
        RngKind::Pcg32 => RngState::Pcg32(pcg32_seed_state(seed, PCG32_DEFAULT_STREAM)),
        RngKind::Lcg64 => RngState::Lcg64(seed),
        RngKind::WyRand => RngState::WyRand(seed),
    }
}

/// A character lowered to ASCII lower case: `A`..`Z` become `a`..`z`,
/// every other character stays as it is.
pub open spec fn ascii_lower_char(c: char) -> char {
    if 65 <= (c as u32) && (c as u32) <= 90 {
        ((c as u32) + 32) as char
    } else {
        c
    }
}

/// A string lowered to ASCII lower case, character by character.
pub open spec fn ascii_lower(s: Seq<char>) -> Seq<char> {
    s.map_values(|c: char| ascii_lower_char(c))
}

/// The generator a name stands for: the name lowered to ASCII lower case
/// must be one of the kind's names or short aliases.
pub open spec fn kind_from_name(name: Seq<char>) -> Option<RngKind> {
    let l = ascii_lower(name);
    if l == "splitmix64"@ || l == "splitmix"@ {
        Some(RngKind::SplitMix64)
    } else if l == "xorshift64star"@ || l == "xorshift64"@ || l == "xorshift"@ {
        Some(RngKind::Xorshift64Star)
    } else if l == "xorshift128plus"@ || l == "xorshift128"@ {
        Some(RngKind::Xorshift128Plus)
    } else if l == "pcg32"@ || l == "pcg"@ {
        Some(RngKind::Pcg32)
    } else if l == "lcg64"@ || l == "lcg"@ {
        Some(RngKind::Lcg64)
    } else if l == "wyrand"@ || l == "wy"@ {
        Some(RngKind::WyRand)
    } else {
        None
    }
}

/// The display name of a generator.
pub open spec fn kind_name(kind: RngKind) -> Seq<char> {
    match kind {
        RngKind::SplitMix64 => "SplitMix64"@,
        RngKind::Xorshift64Star => "Xorshift64*"@,
        RngKind::Xorshift128Plus => "Xorshift128+"@,
        RngKind::Pcg32 => "PCG32"@,
        RngKind::Lcg64 => "LCG64"@,
        RngKind::WyRand => "WyRand"@,
    }
}

/// Whether `name`, lowered to ASCII lower case, is exactly `lower`.
fn lowercase_equals(name: &str, lower: &str) -> (b: bool)
    ensures
        b == (ascii_lower(name@) == lower@),
{
    let n = name.unicode_len();
    let m = lower.unicode_len();
    if n != m {
        assert(ascii_lower(name@).len() != lower@.len());
        return false;
    }
    let mut i: usize = 0;
    while i < n
        invariant
            n == name@.len(),
            m == lower@.len(),
            n == m,
            i <= n,
            forall|k: int| 0 <= k < i ==> ascii_lower_char(#[trigger] name@[k]) == lower@[k],
        decreases n - i,
    {
        let c = name.get_char(i);
        let d = lower.get_char(i);
        let cu = c as u32;
        let lcu = if 65 <= cu && cu <= 90 {
            cu + 32
        } else {
            cu
        };
        if lcu != d as u32 {
            assert(ascii_lower(name@)[i as int] != lower@[i as int]);
            return false;
        }
        i = i + 1;
    }
    assert(ascii_lower(name@) =~= lower@);
    true
}

impl RngKind {
    /// Builds a generator of this kind from a single `u64` seed.
    pub fn build(self, seed: u64) -> (g: AnyRng)
        ensures
            g@ == seed_state(self, seed),
    {
        match self {
            RngKind::SplitMix64 => AnyRng::SplitMix64(SplitMix64::new(seed)),
            RngKind::Xorshift64Star => AnyRng::Xorshift64Star(Xorshift64Star::new(seed)),
            RngKind::Xorshift128Plus => AnyRng::Xorshift128Plus(Xorshift128Plus::new(seed)),
            RngKind::Pcg32 => AnyRng::Pcg32(Pcg32::new(seed, PCG32_DEFAULT_STREAM)),
            RngKind::Lcg64 => AnyRng::Lcg64(Lcg64::new(seed)),
            RngKind::WyRand => AnyRng::WyRand(WyRand::new(seed)),
        }
    }

    /// Parses a generator name from a string, case-insensitively, accepting
    /// a couple of short aliases for convenience on the command line.
    pub fn from_name(name: &str) -> (r: Option<Self>)
        ensures
            r == kind_from_name(name@),
    {
        if lowercase_equals(name, "splitmix64") || lowercase_equals(name, "splitmix") {
            Some(RngKind::SplitMix64)
        } else if lowercase_equals(name, "xorshift64star") || lowercase_equals(name, "xorshift64")
            || lowercase_equals(name, "xorshift") {
            Some(RngKind::Xorshift64Star)
        } else if lowercase_equals(name, "xorshift128plus") || lowercase_equals(
            name,
            "xorshift128",
        ) {
            Some(RngKind::Xorshift128Plus)
        } else if lowercase_equals(name, "pcg32") || lowercase_equals(name, "pcg") {
            Some(RngKind::Pcg32)
        } else if lowercase_equals(name, "lcg64") || lowercase_equals(name, "lcg") {
            Some(RngKind::Lcg64)
        } else if lowercase_equals(name, "wyrand") || lowercase_equals(name, "wy") {
            Some(RngKind::WyRand)
        } else {
            None
        }
    }

    /// All available names, mainly so that a program can print a usage hint.
    pub const ALL_NAMES: [&'static str; 6] = [
        "splitmix64",
        "xorshift64star",
        "xorshift128plus",
        "pcg32",
        "lcg64",
        "wyrand",
    ];

    /// The display name of this generator.
    pub fn name(&self) -> (s: &'static str)
        ensures
            s@ == kind_name(*self),
            *self == RngKind::SplitMix64 ==> s@ == "SplitMix64"@,
            *self == RngKind::Xorshift64Star ==> s@ == "Xorshift64*"@,
            *self == RngKind::Xorshift128Plus ==> s@ == "Xorshift128+"@,
            *self == RngKind::Pcg32 ==> s@ == "PCG32"@,
            *self == RngKind::Lcg64 ==> s@ == "LCG64"@,
            *self == RngKind::WyRand ==> s@ == "WyRand"@,
    {
        match self {
            RngKind::SplitMix64 => "SplitMix64",
            RngKind::Xorshift64Star => "Xorshift64*",
            RngKind::Xorshift128Plus => "Xorshift128+",
            RngKind::Pcg32 => "PCG32",
            RngKind::Lcg64 => "LCG64",
            RngKind::WyRand => "WyRand",
        }
    }

    /// Every kind, in the order of `ALL_NAMES`.
    pub const ALL: [RngKind; 6] = [
        RngKind::SplitMix64,
        RngKind::Xorshift64Star,
        RngKind::Xorshift128Plus,
        RngKind::Pcg32,
        RngKind::Lcg64,
        RngKind::WyRand,
    ];
}

// ---------------------------------------------------------------------------
// Laws of the names
// ---------------------------------------------------------------------------

/// Parsing a generator name ignores ASCII case: two names that agree once
/// lowered stand for the same generator, or both for none.
pub proof fn lemma_from_name_ignores_case(a: Seq<char>, b: Seq<char>)
    requires
        ascii_lower(a) == ascii_lower(b),
    ensures
        kind_from_name(a) == kind_from_name(b),
{
}

/// Each name of `RngKind::ALL_NAMES` parses to the kind at the same position
/// of `RngKind::ALL`.
pub proof fn lemma_all_names_parse()
    ensures
        forall|i: int|
            0 <= i < 6 ==> kind_from_name((#[trigger] RngKind::ALL_NAMES[i])@) == Some(
                RngKind::ALL[i],
            ),
{
    reveal_strlit("splitmix64");
    reveal_strlit("xorshift64star");
    reveal_strlit("xorshift128plus");
    reveal_strlit("pcg32");
    reveal_strlit("lcg64");
    reveal_strlit("wyrand");
    assert(ascii_lower("splitmix64"@) =~= "splitmix64"@);
    assert(ascii_lower("xorshift64star"@) =~= "xorshift64star"@);
    assert(ascii_lower("xorshift128plus"@) =~= "xorshift128plus"@);
    assert(ascii_lower("pcg32"@) =~= "pcg32"@);
    assert(ascii_lower("lcg64"@) =~= "lcg64"@);
    assert(ascii_lower("wyrand"@) =~= "wyrand"@);
    reveal_strlit("splitmix");
    reveal_strlit("xorshift64");
    reveal_strlit("xorshift");
    reveal_strlit("xorshift128");
    reveal_strlit("pcg");
    reveal_strlit("lcg");
    reveal_strlit("wy");
    assert forall|i: int| 0 <= i < 6 implies kind_from_name(
        (#[trigger] RngKind::ALL_NAMES[i])@,
    ) == Some(RngKind::ALL[i]) by {
        if i == 0 {
            assert(RngKind::ALL_NAMES[0] == "splitmix64");
        } else if i == 1 {
            assert(RngKind::ALL_NAMES[1] == "xorshift64star");
        } else if i == 2 {
            assert(RngKind::ALL_NAMES[2] == "xorshift128plus");
        } else if i == 3 {
            assert(RngKind::ALL_NAMES[3] == "pcg32");
        } else if i == 4 {
            assert(RngKind::ALL_NAMES[4] == "lcg64");
            assert("lcg64"@[0] != "pcg32"@[0]);
        } else {
            assert(RngKind::ALL_NAMES[5] == "wyrand");
        }
    }
}

/// A display name parses back to its generator, for every generator whose
/// display name is not decorated with a `*` or a `+`.
pub proof fn lemma_name_parses_back(kind: RngKind)
    requires
        kind != RngKind::Xorshift64Star,
        kind != RngKind::Xorshift128Plus,
    ensures
        kind_from_name(kind_name(kind)) == Some(kind),
{
    reveal_strlit("SplitMix64");
    reveal_strlit("PCG32");
    reveal_strlit("LCG64");
    reveal_strlit("WyRand");
    reveal_strlit("splitmix64");
    reveal_strlit("splitmix");
    reveal_strlit("xorshift64star");
    reveal_strlit("xorshift64");
    reveal_strlit("xorshift");
    reveal_strlit("xorshift128plus");
    reveal_strlit("xorshift128");
    reveal_strlit("pcg32");
    reveal_strlit("pcg");
    reveal_strlit("lcg64");
    reveal_strlit("lcg");
    reveal_strlit("wyrand");
    reveal_strlit("wy");
    match kind {
        RngKind::SplitMix64 => {
            assert(ascii_lower("SplitMix64"@) =~= "splitmix64"@);
        },
        RngKind::Pcg32 => {
            assert(ascii_lower("PCG32"@) =~= "pcg32"@);
        },
        RngKind::Lcg64 => {
            assert(ascii_lower("LCG64"@) =~= "lcg64"@);
            assert("lcg64"@[0] != "pcg32"@[0]);
        },
        RngKind::WyRand => {
            assert(ascii_lower("WyRand"@) =~= "wyrand"@);
        },
        _ => {},
    }
}

// ---------------------------------------------------------------------------
// Laws of the draws, in plain arithmetic on the state
// ---------------------------------------------------------------------------

/// A SplitMix64 draw adds 0x9E3779B97F4A7C15 to the state modulo 2^64, and
/// returns the new state put through two multiply-xorshift rounds and a final
/// xorshift.
pub proof fn lemma_splitmix64_draw(state: u64)
    ensures
        ({
            let (n, r) = <SplitMix64 as Rng64>::spec_step(state);
            let z1 = (((n ^ (n >> 30u64)) * 0xBF58476D1CE4E5B9int) % 0x1_0000_0000_0000_0000int) as u64;
            let z2 = (((z1 ^ (z1 >> 27u64)) * 0x94D049BB133111EBint) % 0x1_0000_0000_0000_0000int) as u64;
            &&& n == (state + 0x9E3779B97F4A7C15int) % 0x1_0000_0000_0000_0000int
            &&& r == z2 ^ (z2 >> 31u64)
        }),
{
}

/// A xorshift64* draw moves the state through three shift-xor steps, and
/// returns the new state times 0x2545F4914F6CDD1D modulo 2^64.
pub proof fn lemma_xorshift64star_draw(state: u64)
    ensures
        ({
            let (n, r) = <Xorshift64Star as Rng64>::spec_step(state);
            let a = state ^ (state >> 12u64);
            let b = a ^ (a << 25u64);
            &&& n == b ^ (b >> 27u64)
            &&& r == (n * 0x2545_F491_4F6C_DD1Dint) % 0x1_0000_0000_0000_0000int
        }),
{
}

/// A xorshift128+ draw on `(s0, s1)`: the new first half is `s1`, the new
/// second half is `s0` mixed by shift-xors with `s1`, and the value drawn is
/// the sum of the two new halves modulo 2^64.
pub proof fn lemma_xorshift128plus_draw(s0: u64, s1: u64)
    ensures
        ({
            let ((n0, n1), r) = <Xorshift128Plus as Rng64>::spec_step((s0, s1));
            let a = s0 ^ (s0 << 23u64);
            let b = a ^ (a >> 17u64);
            &&& n0 == s1
            &&& n1 == (b ^ s1) ^ (s1 >> 26u64)
            &&& r == (n0 + n1) % 0x1_0000_0000_0000_0000int
        }),
{
}

/// The 32-bit output PCG32 draws from a state: the xorshifted high bits
/// rotated right by the top five bits.
pub open spec fn pcg32_xsh_rr(x: u64) -> u32 {
    let xs = (((x >> 18u64) ^ x) >> 27u64) as u32;
    let rot = (x >> 59u64) as u32;
    (xs >> rot) | (xs << (((32 - rot) % 32) as u32))
}

/// A 64-bit PCG32 draw on `(state, inc)` takes two linear congruential
/// steps `state * 6364136223846793005 + inc` modulo 2^64, keeps the
/// increment, and returns the output of the old state in the high 32 bits
/// and the output of the intermediate state in the low 32 bits.
pub proof fn lemma_pcg32_draw(state: u64, inc: u64)
    ensures
        ({
            let ((n, ninc), r) = <Pcg32 as Rng64>::spec_step((state, inc));
            let s1 = ((state * 6364136223846793005int + inc) % 0x1_0000_0000_0000_0000int) as u64;
            &&& ninc == inc
            &&& n == (s1 * 6364136223846793005int + inc) % 0x1_0000_0000_0000_0000int
            &&& r as int / 0x1_0000_0000int == pcg32_xsh_rr(state)
            &&& r as int % 0x1_0000_0000int == pcg32_xsh_rr(s1)
        }),
{
    let n = 0x1_0000_0000_0000_0000int;
    let m = 6364136223846793005int;
    let s1 = ((state * m + inc) % n) as u64;
    vstd::arithmetic::div_mod::lemma_add_mod_noop(state * m, inc as int, n);
    vstd::arithmetic::div_mod::lemma_add_mod_noop(s1 * m, inc as int, n);
    assert(pcg32_advance(state, inc) == s1);
    let (st1, hi) = pcg32_step32((state, inc));
    let (st2, lo) = pcg32_step32(st1);
    assert(hi == pcg32_xsh_rr(state));
    assert(lo == pcg32_xsh_rr(s1));
    let v = hi as int * 0x1_0000_0000 + lo as int;
    assert(0 <= v < n) by (nonlinear_arith)
        requires
            v == hi as int * 0x1_0000_0000 + lo as int,
            hi < 0x1_0000_0000,
            lo < 0x1_0000_0000,
            n == 0x1_0000_0000_0000_0000int,
    ;
    assert((v as u64) as int == v);
    vstd::arithmetic::div_mod::lemma_fundamental_div_mod_converse(v, 0x1_0000_0000int, hi as int, lo as int);
}

/// An LCG64 draw: the new state is `state * 6364136223846793005 +
/// 1442695040888963407` modulo 2^64, and the value drawn is the new state.
pub proof fn lemma_lcg64_draw(state: u64)
    ensures
        ({
            let (n, r) = <Lcg64 as Rng64>::spec_step(state);
            &&& n == (state * 6364136223846793005int + 1442695040888963407int) % 0x1_0000_0000_0000_0000int
            &&& r == n
        }),
{
    vstd::arithmetic::div_mod::lemma_add_mod_noop(
        state * 6364136223846793005int,
        1442695040888963407int,
        0x1_0000_0000_0000_0000int,
    );
}

/// A WyRand draw adds 0xA0761D6478BD642F to the state modulo 2^64; with `s`
/// the new state and `p` the exact product `s * (s ^ 0xE7037ED1A0B428DB)`,
/// the value drawn is the high 64 bits of `p` xor its low 64 bits.
pub proof fn lemma_wyrand_draw(state: u64)
    ensures
        ({
            let (s, r) = <WyRand as Rng64>::spec_step(state);
            let p = s * (s ^ 0xE703_7ED1_A0B4_28DBu64);
            &&& s == (state + 0xA076_1D64_78BD_642Fint) % 0x1_0000_0000_0000_0000int
            &&& r == ((p / 0x1_0000_0000_0000_0000int) as u64) ^ ((p % 0x1_0000_0000_0000_0000int) as u64)
        }),
{
    let (s, r) = wyrand_step(state);
    let x = s ^ WYRAND_XOR;
    let p = s * x;
    assert(0 <= p < 0x1_0000_0000_0000_0000_0000_0000_0000_0000int) by (nonlinear_arith)
        requires
            p == s * x,
            s < 0x1_0000_0000_0000_0000int,
            x < 0x1_0000_0000_0000_0000int,
            0 <= s,
            0 <= x,
    ;
    let t = p as u128;
    assert(t as int == p);
    assert(((t >> 64u128) ^ t) as u64 == ((t / 0x1_0000_0000_0000_0000u128) as u64) ^ ((t
        % 0x1_0000_0000_0000_0000u128) as u64)) by (bit_vector);
}

/// A generator chosen at run time draws exactly what the generator it holds
/// draws, and stays of the same kind.
pub proof fn lemma_any_rng_draws_as_its_generator(st: RngState)
    ensures
        match st {
            RngState::SplitMix64(s) => <AnyRng as Rng64>::spec_step(st) == (
                RngState::SplitMix64(<SplitMix64 as Rng64>::spec_step(s).0),
                <SplitMix64 as Rng64>::spec_step(s).1,
            ),
            RngState::Xorshift64Star(s) => <AnyRng as Rng64>::spec_step(st) == (
                RngState::Xorshift64Star(<Xorshift64Star as Rng64>::spec_step(s).0),
                <Xorshift64Star as Rng64>::spec_step(s).1,
            ),
            RngState::Xorshift128Plus(s) => <AnyRng as Rng64>::spec_step(st) == (
                RngState::Xorshift128Plus(<Xorshift128Plus as Rng64>::spec_step(s).0),
                <Xorshift128Plus as Rng64>::spec_step(s).1,
            ),
            RngState::Pcg32(s) => <AnyRng as Rng64>::spec_step(st) == (
                RngState::Pcg32(<Pcg32 as Rng64>::spec_step(s).0),
                <Pcg32 as Rng64>::spec_step(s).1,
            ),
            RngState::Lcg64(s) => <AnyRng as Rng64>::spec_step(st) == (
                RngState::Lcg64(<Lcg64 as Rng64>::spec_step(s).0),
                <Lcg64 as Rng64>::spec_step(s).1,
            ),
            RngState::WyRand(s) => <AnyRng as Rng64>::spec_step(st) == (
                RngState::WyRand(<WyRand as Rng64>::spec_step(s).0),
                <WyRand as Rng64>::spec_step(s).1,
            ),
        },
{
}

/// The state each kind starts from is built from the whole 64-bit seed:
/// SplitMix64, LCG64 and WyRand hold the seed itself; xorshift64* holds it
/// unless it is 0; xorshift128+ holds two SplitMix64 draws from it (with 0
/// replaced by 1 and 2); PCG32 holds `seed * 6364136223846793005 + inc`
/// modulo 2^64 with the odd increment `2 * 0xDA3E39CB94B95BDB + 1`.
pub proof fn lemma_seed_states(seed: u64)
    ensures
        seed_state(RngKind::SplitMix64, seed) == RngState::SplitMix64(seed),
        seed_state(RngKind::Lcg64, seed) == RngState::Lcg64(seed),
        seed_state(RngKind::WyRand, seed) == RngState::WyRand(seed),
        seed != 0 ==> seed_state(RngKind::Xorshift64Star, seed) == RngState::Xorshift64Star(seed),
        seed_state(RngKind::Xorshift64Star, 0) == RngState::Xorshift64Star(0xDEAD_BEEF_CAFE_F00Du64),
        ({
            let (g1, d1) = <SplitMix64 as Rng64>::spec_step(seed);
            let d2 = <SplitMix64 as Rng64>::spec_step(g1).1;
            seed_state(RngKind::Xorshift128Plus, seed) == RngState::Xorshift128Plus(
                (
                    if d1 == 0 {
                        1u64
                    } else {
                        d1
                    },
                    if d2 == 0 {
                        2u64
                    } else {
                        d2
                    },
                ),
            )
        }),
        ({
            let inc = ((2 * 0xDA3E_39CB_94B9_5BDBint + 1) % 0x1_0000_0000_0000_0000int) as u64;
            seed_state(RngKind::Pcg32, seed) == RngState::Pcg32(
                (
                    ((seed * 6364136223846793005int + inc) % 0x1_0000_0000_0000_0000int) as u64,
                    inc,
                ),
            )
        }),
{
    let stream = PCG32_DEFAULT_STREAM;
    assert((stream << 1u64) | 1u64 == 0xB47C_7397_2972_B7B7u64) by (bit_vector)
        requires
            stream == 0xDA3E_39CB_94B9_5BDBu64,
    ;
    let inc = ((2 * 0xDA3E_39CB_94B9_5BDBint + 1) % 0x1_0000_0000_0000_0000int) as u64;
    assert(inc == 0xB47C_7397_2972_B7B7u64);
    vstd::arithmetic::div_mod::lemma_add_mod_noop(
        seed * 6364136223846793005int,
        inc as int,
        0x1_0000_0000_0000_0000int,
    );
}

/// A name stands for a generator exactly when, lowered to ASCII lower case,
/// it is one of that generator's names or aliases; any other name stands
/// for none.
pub proof fn lemma_from_name_aliases(name: Seq<char>)
    ensures
        (ascii_lower(name) == "splitmix64"@ || ascii_lower(name) == "splitmix"@) <==> kind_from_name(
            name,
        ) == Some(RngKind::SplitMix64),
        (ascii_lower(name) == "xorshift64star"@ || ascii_lower(name) == "xorshift64"@ || ascii_lower(
            name,
        ) == "xorshift"@) <==> kind_from_name(name) == Some(RngKind::Xorshift64Star),
        (ascii_lower(name) == "xorshift128plus"@ || ascii_lower(name) == "xorshift128"@)
            <==> kind_from_name(name) == Some(RngKind::Xorshift128Plus),
        (ascii_lower(name) == "pcg32"@ || ascii_lower(name) == "pcg"@) <==> kind_from_name(name)
            == Some(RngKind::Pcg32),
        (ascii_lower(name) == "lcg64"@ || ascii_lower(name) == "lcg"@) <==> kind_from_name(name)
            == Some(RngKind::Lcg64),
        (ascii_lower(name) == "wyrand"@ || ascii_lower(name) == "wy"@) <==> kind_from_name(name)
            == Some(RngKind::WyRand),
{
    reveal_strlit("splitmix64");
    reveal_strlit("splitmix");
    reveal_strlit("xorshift64star");
    reveal_strlit("xorshift64");
    reveal_strlit("xorshift");
    reveal_strlit("xorshift128plus");
    reveal_strlit("xorshift128");
    reveal_strlit("pcg32");
    reveal_strlit("pcg");
    reveal_strlit("lcg64");
    reveal_strlit("lcg");
    reveal_strlit("wyrand");
    reveal_strlit("wy");
    assert("splitmix64"@[0] != "xorshift64"@[0]);
    assert("splitmix"@[0] != "xorshift"@[0]);
    assert("pcg32"@[0] != "lcg64"@[0]);
    assert("pcg"@[0] != "lcg"@[0]);
    let l = ascii_lower(name);
    if l == "xorshift128plus"@ || l == "xorshift128"@ || l == "wyrand"@ || l == "wy"@ {
        assert(l.len() == 15 || l.len() == 11 || l.len() == 6 || l.len() == 2);
        assert(l != "splitmix64"@ && l != "splitmix"@ && l != "xorshift64star"@);
        assert(l != "xorshift64"@ && l != "xorshift"@ && l != "pcg32"@ && l != "pcg"@);
        assert(l != "lcg64"@ && l != "lcg"@);
    }
    if l == "wyrand"@ || l == "wy"@ {
        assert(l != "xorshift128plus"@ && l != "xorshift128"@);
    }
}

/// Lowering to ASCII lower case keeps the length, sends each capital letter
/// `A`..`Z` to the small letter 32 code points above it, and leaves every
/// other character as it is.
pub proof fn lemma_ascii_lower(s: Seq<char>)
    ensures
        ascii_lower(s).len() == s.len(),
        forall|i: int|
            0 <= i < s.len() ==> {
                let c = s[i];
                &&& (65 <= (c as u32) <= 90) ==> (#[trigger] ascii_lower(s)[i]) as u32 == (c as u32)
                    + 32
                &&& !(65 <= (c as u32) <= 90) ==> ascii_lower(s)[i] == c
            },
{
}

} // verus!

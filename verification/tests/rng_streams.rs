use engine::util::rng::{
    Lcg64, Pcg32, Rng64, RngKind, SplitMix64, WyRand, Xorshift128Plus, Xorshift64Star,
};

#[test]
fn splitmix64_first_draws_seed_0() {
    let mut g = SplitMix64::new(0);
    assert_eq!(g.next_u64(), 0xe220a8397b1dcdaf);
    assert_eq!(g.next_u64(), 0x6e789e6aa1b965f4);
    assert_eq!(g.next_u64(), 0x6c45d188009454f);
}

#[test]
fn splitmix64_first_draws_seed_1() {
    let mut g = SplitMix64::new(1);
    assert_eq!(g.next_u64(), 0x910a2dec89025cc1);
    assert_eq!(g.next_u64(), 0xbeeb8da1658eec67);
    assert_eq!(g.next_u64(), 0xf893a2eefb32555e);
}

#[test]
fn splitmix64_first_draws_seed_42() {
    let mut g = SplitMix64::new(42);
    assert_eq!(g.next_u64(), 0xbdd732262feb6e95);
    assert_eq!(g.next_u64(), 0x28efe333b266f103);
    assert_eq!(g.next_u64(), 0x47526757130f9f52);
}

#[test]
fn splitmix64_first_draws_seed_max() {
    let mut g = SplitMix64::new(u64::MAX);
    assert_eq!(g.next_u64(), 0xe4d971771b652c20);
    assert_eq!(g.next_u64(), 0xe99ff867dbf682c9);
    assert_eq!(g.next_u64(), 0x382ff84cb27281e9);
}

#[test]
fn xorshift64star_first_draws_seed_0() {
    let mut g = Xorshift64Star::new(0);
    assert_eq!(g.next_u64(), 0x514d4ec202774de6);
    assert_eq!(g.next_u64(), 0x7c06d336bec61572);
    assert_eq!(g.next_u64(), 0x9f3eda688cce7c01);
}

#[test]
fn xorshift64star_first_draws_seed_1() {
    let mut g = Xorshift64Star::new(1);
    assert_eq!(g.next_u64(), 0x47e4ce4b896cdd1d);
    assert_eq!(g.next_u64(), 0xabcfa6a8e079651d);
    assert_eq!(g.next_u64(), 0xb9d10d8feb731f57);
}

#[test]
fn xorshift64star_first_draws_seed_42() {
    let mut g = Xorshift64Star::new(42);
    assert_eq!(g.next_u64(), 0x56ce4ab7719ba3a0);
    assert_eq!(g.next_u64(), 0xc841eb53ebbb2dda);
    assert_eq!(g.next_u64(), 0xca466be0c9980276);
}

#[test]
fn xorshift64star_first_draws_seed_max() {
    let mut g = Xorshift64Star::new(u64::MAX);
    assert_eq!(g.next_u64(), 0xf92cc9e5c6000000);
    assert_eq!(g.next_u64(), 0x8ff484d8fd1eaee3);
    assert_eq!(g.next_u64(), 0x346c95f3326fabc6);
}

#[test]
fn xorshift128plus_first_draws_seed_0() {
    let mut g = Xorshift128Plus::new(0);
    assert_eq!(g.next_u64(), 0xff5e664aa2264ab1);
    assert_eq!(g.next_u64(), 0x5cb3706844353952);
    assert_eq!(g.next_u64(), 0x76f611e25a5011e3);
}

#[test]
fn xorshift128plus_first_draws_seed_1() {
    let mut g = Xorshift128Plus::new(1);
    assert_eq!(g.next_u64(), 0x9890a08cc61d98a5);
    assert_eq!(g.next_u64(), 0x91a182125b3dfdc4);
    assert_eq!(g.next_u64(), 0xd3e5dbe3cb93dd47);
}

#[test]
fn xorshift128plus_first_draws_seed_42() {
    let mut g = Xorshift128Plus::new(42);
    assert_eq!(g.next_u64(), 0xaf1f56fc41a4d2d2);
    assert_eq!(g.next_u64(), 0xbd496f01ee605ceb);
    assert_eq!(g.next_u64(), 0x8c8b2271e69fdbf6);
}

#[test]
fn xorshift128plus_first_draws_seed_max() {
    let mut g = Xorshift128Plus::new(u64::MAX);
    assert_eq!(g.next_u64(), 0xa06b0c7eb293b576);
    assert_eq!(g.next_u64(), 0x23848e3bb15b1d17);
    assert_eq!(g.next_u64(), 0x3dd2f88534777c69);
}

#[test]
fn pcg32_first_draws_seed_0() {
    let mut g = Pcg32::new(0, 0xDA3E_39CB_94B9_5BDB);
    assert_eq!(g.next_u64(), 0x2f441a3e0a65ce7d);
    assert_eq!(g.next_u64(), 0x97a1773ec03f123a);
    assert_eq!(g.next_u64(), 0xf1654d2585a07892);
}

#[test]
fn pcg32_first_draws_seed_1() {
    let mut g = Pcg32::new(1, 0xDA3E_39CB_94B9_5BDB);
    assert_eq!(g.next_u64(), 0xcce64f7eef9912b3);
    assert_eq!(g.next_u64(), 0x33dbbfeaea259a54);
    assert_eq!(g.next_u64(), 0xd6021e3399cf4e90);
}

#[test]
fn pcg32_first_draws_seed_42() {
    let mut g = Pcg32::new(42, 0xDA3E_39CB_94B9_5BDB);
    assert_eq!(g.next_u64(), 0xcf747bfcf62d0c7);
    assert_eq!(g.next_u64(), 0xdf74df3557d5f15a);
    assert_eq!(g.next_u64(), 0x1df77ee500eda0f9);
}

#[test]
fn pcg32_first_draws_seed_max() {
    let mut g = Pcg32::new(u64::MAX, 0xDA3E_39CB_94B9_5BDB);
    assert_eq!(g.next_u64(), 0x8d10a9a15b18de51);
    assert_eq!(g.next_u64(), 0x1c2db84445b59893);
    assert_eq!(g.next_u64(), 0xa3ef8c273963bba0);
}

#[test]
fn lcg64_first_draws_seed_0() {
    let mut g = Lcg64::new(0);
    assert_eq!(g.next_u64(), 0x14057b7ef767814f);
    assert_eq!(g.next_u64(), 0x1a08ee1184ba6d32);
    assert_eq!(g.next_u64(), 0x9af678222e728119);
}

#[test]
fn lcg64_first_draws_seed_1() {
    let mut g = Lcg64::new(1);
    assert_eq!(g.next_u64(), 0x6c576fac43fd007c);
    assert_eq!(g.next_u64(), 0x826886b3864a1b1b);
    assert_eq!(g.next_u64(), 0xa5fae1992097aa0e);
}

#[test]
fn lcg64_first_draws_seed_42() {
    let mut g = Lcg64::new(42);
    assert_eq!(g.next_u64(), 0x91778aed87ee5eb1);
    assert_eq!(g.next_u64(), 0x39b7f8a5c64cf56c);
    assert_eq!(g.next_u64(), 0x69afc5a5e88b394b);
}

#[test]
fn lcg64_first_draws_seed_max() {
    let mut g = Lcg64::new(u64::MAX);
    assert_eq!(g.next_u64(), 0xbbb38751aad20222);
    assert_eq!(g.next_u64(), 0xb1a9556f832abf49);
    assert_eq!(g.next_u64(), 0x8ff20eab3c4d5824);
}

#[test]
fn wyrand_first_draws_seed_0() {
    let mut g = WyRand::new(0);
    assert_eq!(g.next_u64(), 0x111cb3a78f59a58e);
    assert_eq!(g.next_u64(), 0xceabd938ff4e856d);
    assert_eq!(g.next_u64(), 0x61fb51318f47d2a4);
}

#[test]
fn wyrand_first_draws_seed_1() {
    let mut g = WyRand::new(1);
    assert_eq!(g.next_u64(), 0xcdef1695e1f8ed2c);
    assert_eq!(g.next_u64(), 0x61d6d24b1c9aad40);
    assert_eq!(g.next_u64(), 0x8cf880c22eebfadf);
}

#[test]
fn wyrand_first_draws_seed_42() {
    let mut g = WyRand::new(42);
    assert_eq!(g.next_u64(), 0xae4a7cbfdda9b434);
    assert_eq!(g.next_u64(), 0xe9cc09d33d38d9d2);
    assert_eq!(g.next_u64(), 0xcb5756512b93433a);
}

#[test]
fn wyrand_first_draws_seed_max() {
    let mut g = WyRand::new(u64::MAX);
    assert_eq!(g.next_u64(), 0xba1dc814e82d5d44);
    assert_eq!(g.next_u64(), 0x57accfe85fe29d15);
    assert_eq!(g.next_u64(), 0x3afa6e616fb3aa6f);
}

#[test]
fn xorshift64star_zero_seed_starts_from_fixed_state() {
    let mut a = Xorshift64Star::new(0);
    let mut b = Xorshift64Star::new(0xDEAD_BEEF_CAFE_F00D);
    for _ in 0..16 {
        let x = a.next_u64();
        assert_eq!(x, b.next_u64());
        assert_ne!(x, 0);
    }
}

#[test]
fn xorshift128plus_seeds_from_splitmix64() {
    // xorshift128+ starts from two SplitMix64 draws; its first output is
    // the sum of the second draw and the mixed second half.
    let mut seeder = SplitMix64::new(7);
    let s0 = seeder.next_u64();
    let s1 = seeder.next_u64();
    let mut g = Xorshift128Plus::new(7);
    let mut x = s0;
    x ^= x << 23;
    x ^= x >> 17;
    x ^= s1;
    x ^= s1 >> 26;
    assert_eq!(g.next_u64(), s1.wrapping_add(x));
}

#[test]
fn pcg32_stream_changes_the_sequence() {
    let mut a = Pcg32::new(42, 1);
    let mut b = Pcg32::new(42, 2);
    let xa: Vec<u64> = (0..4).map(|_| a.next_u64()).collect();
    let xb: Vec<u64> = (0..4).map(|_| b.next_u64()).collect();
    assert_ne!(xa, xb);
}

#[test]
fn lcg64_output_is_its_state() {
    // Each LCG64 draw is state * a + c, and the draw becomes the state.
    let mut g = Lcg64::new(5);
    let first = g.next_u64();
    assert_eq!(first, 5u64.wrapping_mul(6364136223846793005).wrapping_add(1442695040888963407));
    let second = g.next_u64();
    assert_eq!(second, first.wrapping_mul(6364136223846793005).wrapping_add(1442695040888963407));
}

#[test]
fn build_gives_the_same_stream_as_the_generator_itself() {
    for seed in [0u64, 3, 42, u64::MAX] {
        let mut direct: Vec<Vec<u64>> = Vec::new();
        let mut g = SplitMix64::new(seed);
        direct.push((0..5).map(|_| g.next_u64()).collect());
        let mut g = Xorshift64Star::new(seed);
        direct.push((0..5).map(|_| g.next_u64()).collect());
        let mut g = Xorshift128Plus::new(seed);
        direct.push((0..5).map(|_| g.next_u64()).collect());
        let mut g = Pcg32::new(seed, 0xDA3E_39CB_94B9_5BDB);
        direct.push((0..5).map(|_| g.next_u64()).collect());
        let mut g = Lcg64::new(seed);
        direct.push((0..5).map(|_| g.next_u64()).collect());
        let mut g = WyRand::new(seed);
        direct.push((0..5).map(|_| g.next_u64()).collect());
        for (k, kind) in RngKind::ALL.iter().enumerate() {
            let mut built = kind.build(seed);
            let xs: Vec<u64> = (0..5).map(|_| built.next_u64()).collect();
            assert_eq!(xs, direct[k]);
        }
    }
}

#[test]
fn build_is_deterministic() {
    for kind in RngKind::ALL {
        let mut a = kind.build(1234);
        let mut b = kind.build(1234);
        for _ in 0..8 {
            assert_eq!(a.next_u64(), b.next_u64());
        }
    }
}

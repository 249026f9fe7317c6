use engine::plugins::world::floor::perlin::Perlin;
use engine::util::rng::RngKind;

#[test]
fn corner_hashes_splitmix64_seed_42() {
    let p = Perlin::new(42, RngKind::SplitMix64);
    assert_eq!(p.corner_hashes(0, 0), (153, 50, 241, 155));
    assert_eq!(p.corner_hashes(17, -3), (32, 164, 234, 48));
    assert_eq!(p.corner_hashes(255, 255), (231, 110, 250, 153));
    assert_eq!(p.corner_hashes(-1, -1), (231, 110, 250, 153));
    assert_eq!(p.corner_hashes(1000, -1000), (152, 232, 156, 226));
    assert_eq!(p.corner_hashes(-2147483648, 2147483647), (110, 129, 153, 50));
}

#[test]
fn corner_hashes_xorshift64star_seed_42() {
    let p = Perlin::new(42, RngKind::Xorshift64Star);
    assert_eq!(p.corner_hashes(0, 0), (50, 156, 21, 94));
    assert_eq!(p.corner_hashes(17, -3), (251, 74, 139, 151));
    assert_eq!(p.corner_hashes(255, 255), (42, 89, 4, 50));
    assert_eq!(p.corner_hashes(-1, -1), (42, 89, 4, 50));
    assert_eq!(p.corner_hashes(1000, -1000), (14, 119, 27, 30));
    assert_eq!(p.corner_hashes(-2147483648, 2147483647), (89, 242, 50, 156));
}

#[test]
fn corner_hashes_xorshift128plus_seed_42() {
    let p = Perlin::new(42, RngKind::Xorshift128Plus);
    assert_eq!(p.corner_hashes(0, 0), (14, 234, 94, 189));
    assert_eq!(p.corner_hashes(17, -3), (116, 19, 68, 84));
    assert_eq!(p.corner_hashes(255, 255), (244, 219, 48, 14));
    assert_eq!(p.corner_hashes(-1, -1), (244, 219, 48, 14));
    assert_eq!(p.corner_hashes(1000, -1000), (183, 145, 26, 152));
    assert_eq!(p.corner_hashes(-2147483648, 2147483647), (219, 74, 14, 234));
}

#[test]
fn corner_hashes_pcg32_seed_42() {
    let p = Perlin::new(42, RngKind::Pcg32);
    assert_eq!(p.corner_hashes(0, 0), (49, 44, 16, 161));
    assert_eq!(p.corner_hashes(17, -3), (168, 230, 252, 142));
    assert_eq!(p.corner_hashes(255, 255), (30, 65, 88, 49));
    assert_eq!(p.corner_hashes(-1, -1), (30, 65, 88, 49));
    assert_eq!(p.corner_hashes(1000, -1000), (185, 38, 46, 200));
    assert_eq!(p.corner_hashes(-2147483648, 2147483647), (65, 28, 49, 44));
}

#[test]
fn corner_hashes_lcg64_seed_42() {
    let p = Perlin::new(42, RngKind::Lcg64);
    assert_eq!(p.corner_hashes(0, 0), (2, 94, 214, 107));
    assert_eq!(p.corner_hashes(17, -3), (23, 16, 45, 246));
    assert_eq!(p.corner_hashes(255, 255), (3, 125, 153, 2));
    assert_eq!(p.corner_hashes(-1, -1), (3, 125, 153, 2));
    assert_eq!(p.corner_hashes(1000, -1000), (172, 130, 249, 151));
    assert_eq!(p.corner_hashes(-2147483648, 2147483647), (125, 30, 2, 94));
}

#[test]
fn corner_hashes_wyrand_seed_42() {
    let p = Perlin::new(42, RngKind::WyRand);
    assert_eq!(p.corner_hashes(0, 0), (152, 179, 195, 123));
    assert_eq!(p.corner_hashes(17, -3), (71, 250, 120, 162));
    assert_eq!(p.corner_hashes(255, 255), (235, 28, 186, 152));
    assert_eq!(p.corner_hashes(-1, -1), (235, 28, 186, 152));
    assert_eq!(p.corner_hashes(1000, -1000), (114, 129, 183, 78));
    assert_eq!(p.corner_hashes(-2147483648, 2147483647), (28, 148, 152, 179));
}

#[test]
fn same_seed_and_kind_give_the_same_table() {
    for kind in RngKind::ALL {
        let a = Perlin::new(99, kind);
        let b = Perlin::new(99, kind);
        for x in -300..300 {
            assert_eq!(a.corner_hashes(x, x / 3), b.corner_hashes(x, x / 3));
        }
    }
}

#[test]
fn different_seeds_give_different_tables() {
    let a = Perlin::new(1, RngKind::SplitMix64);
    let b = Perlin::new(2, RngKind::SplitMix64);
    let differ = (0..256).any(|x| a.corner_hashes(x, 0) != b.corner_hashes(x, 0));
    assert!(differ);
}

#[test]
fn lattice_repeats_every_256_cells() {
    let p = Perlin::new(42, RngKind::Pcg32);
    for x in -600..600 {
        for y in [-257, -1, 0, 5, 300] {
            assert_eq!(p.corner_hashes(x, y), p.corner_hashes(x + 256, y));
            assert_eq!(p.corner_hashes(x, y), p.corner_hashes(x, y - 256));
        }
    }
}

#[test]
fn corner_hashes_of_a_row_cover_every_byte() {
    // Along a row the table is applied as a permutation, so the hashes of
    // 256 consecutive cells hold every byte value once.
    for kind in RngKind::ALL {
        for seed in [0u64, 42, u64::MAX] {
            let p = Perlin::new(seed, kind);
            let mut seen = [false; 256];
            for x in 0..256 {
                seen[p.corner_hashes(x, 3).0 as usize] = true;
            }
            assert!(seen.iter().all(|s| *s));
        }
    }
}

#[test]
fn neighbouring_corners_agree() {
    // The corner (x + 1, y) of cell (x, y) is the corner (x, y) of cell (x + 1, y).
    let p = Perlin::new(5, RngKind::WyRand);
    for x in -20..20 {
        for y in -20..20 {
            let here = p.corner_hashes(x, y);
            assert_eq!(here.1, p.corner_hashes(x + 1, y).0);
            assert_eq!(here.2, p.corner_hashes(x, y + 1).0);
            assert_eq!(here.3, p.corner_hashes(x + 1, y + 1).0);
        }
    }
}

#[test]
fn gradients_follow_the_low_three_bits() {
    let expected = [(1, 1), (-1, 1), (1, -1), (-1, -1), (1, 0), (-1, 0), (0, 1), (0, -1)];
    for h in 0..=255u8 {
        assert_eq!(Perlin::gradient(h), expected[(h % 8) as usize]);
    }
}

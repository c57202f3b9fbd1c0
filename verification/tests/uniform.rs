use xoshiro_rand::distributions::{
    Distribution, StandardUniformClosedOpen, StandardUniformOpenClosed, StandardUniformOpenOpen,
    Uniform,
};
use xoshiro_rand::rngs::{ConstRng, Rng, Xoshiro256PlusPlus};

const SCALE: f64 = 1.0 / ((1u64 << 53) as f64);

#[test]
fn discrete_confined_various_ranges() {
    let cases: [(u64, u64); 5] = [
        (0, 3),
        (5, 12),
        (0, 1000),
        (u64::MAX - 10, u64::MAX),
        (0, u64::MAX),
    ];
    for &(start, end) in cases.iter() {
        let mut rng = Xoshiro256PlusPlus::new([start.wrapping_add(1), 2, 3, end]);
        let u = Uniform::new(start, end);
        for _ in 0..100_000 {
            let v = rng.sample(&u);
            assert!(v >= start && v < end);
        }
    }
}

#[test]
fn discrete_chi_square_uniformity() {
    // 7 bins over 100_000 draws; the statistic is compared against the
    // 99.9% critical value for 6 degrees of freedom.
    let mut rng = Xoshiro256PlusPlus::new([11, 22, 33, 44]);
    let u = Uniform::new(0, 7);
    let mut counts = [0u64; 7];
    let draws: u64 = 100_000;
    for _ in 0..draws {
        counts[rng.sample(&u) as usize] += 1;
    }
    let expected = draws as f64 / 7.0;
    let mut chi2 = 0.0f64;
    for &c in counts.iter() {
        let d = c as f64 - expected;
        chi2 += d * d / expected;
    }
    assert!(chi2 < 22.46, "chi-square statistic {} too large", chi2);
}

#[test]
fn discrete_10_to_20_frequencies() {
    let mut rng = Xoshiro256PlusPlus::new([5, 6, 7, 8]);
    let u = Uniform::new(10, 20);
    let mut counts = [0u64; 10];
    let draws: u64 = 1_000_000;
    for _ in 0..draws {
        let v = rng.sample(&u);
        assert!((10..20).contains(&v));
        counts[(v - 10) as usize] += 1;
    }
    // each of the 10 values within one percentage point of the expected 10%
    for &c in counts.iter() {
        assert!(c >= 90_000 && c <= 110_000, "count {} out of tolerance", c);
    }
}

#[test]
fn discrete_value_pinned_by_known_words() {
    // With every raw word forced to 1, the widening product is 1 * range,
    // whose high word is 0: the sample is the lower endpoint.
    let mut low = ConstRng { word: 1 };
    let u = Uniform::new(10, 20);
    assert_eq!(low.sample(&u), 10);
    // With every raw word forced to the largest word, the high word of the
    // product is range - 1: the sample is the upper endpoint less one.
    let mut high = ConstRng { word: u64::MAX };
    assert_eq!(high.sample(&u), 19);
}

#[test]
fn discrete_single_value_interval() {
    // With range 1 the rejection threshold is 0, every word is accepted,
    // and the high product word is always 0: the sample is always `start`.
    let mut rng = Xoshiro256PlusPlus::new([3, 1, 4, 1]);
    let u = Uniform::new(1, 2);
    for _ in 0..100 {
        assert_eq!(rng.sample(&u), 1);
    }
}

#[test]
fn closed_open_unit_endpoints() {
    let mut rng = Xoshiro256PlusPlus::new([101, 202, 303, 404]);
    let d = StandardUniformClosedOpen {};
    for _ in 0..1_000_000 {
        let v = rng.sample(&d);
        assert!(v < (1u64 << 53));
        let x = v as f64 * SCALE;
        assert!(x >= 0.0 && x < 1.0);
        assert!(x != 1.0);
    }
}

#[test]
fn open_closed_unit_endpoints() {
    let mut rng = Xoshiro256PlusPlus::new([505, 606, 707, 808]);
    let d = StandardUniformOpenClosed {};
    for _ in 0..1_000_000 {
        let v = rng.sample(&d);
        assert!(v >= 1 && v <= (1u64 << 53));
        let x = v as f64 * SCALE;
        assert!(x > 0.0 && x <= 1.0);
        assert!(x != 0.0);
    }
}

#[test]
fn open_open_unit_endpoints() {
    let mut rng = Xoshiro256PlusPlus::new([909, 111, 222, 333]);
    let d = StandardUniformOpenOpen {};
    for _ in 0..1_000_000 {
        let v = rng.sample(&d);
        assert!(v % 2 == 1);
        assert!(v >= 1 && v < (1u64 << 53));
        let x = v as f64 * SCALE;
        assert!(x > 0.0 && x < 1.0);
        assert!(x != 0.0 && x != 1.0);
    }
}

#[test]
fn affine_transform_stays_in_interval() {
    // The continuous arbitrary-range sampler is the canonical unit draw
    // followed by one fused multiply-add, exactly as a float consumer of
    // the fixed-point numerators applies it.
    let pairs: [(f64, f64); 6] = [
        (0.0, 1.0),
        (-1.0, 1.0),
        (-5.5, -2.25),
        (10.0, 20.0),
        (0.001, 0.002),
        (-1.0e6, 1.0e6),
    ];
    let mut rng = Xoshiro256PlusPlus::new([41, 42, 43, 44]);
    for &(a, b) in pairs.iter() {
        let range = b - a;
        let co = StandardUniformClosedOpen {};
        let oc = StandardUniformOpenClosed {};
        let oo = StandardUniformOpenOpen {};
        for _ in 0..10_000 {
            let u = rng.sample(&co) as f64 * SCALE;
            let r = f64::mul_add(u, range, a);
            assert!(r >= a && r < b, "closed-open {} outside [{}, {})", r, a, b);

            let u = rng.sample(&oc) as f64 * SCALE;
            let r = f64::mul_add(u, range, a);
            assert!(r > a && r <= b, "open-closed {} outside ({}, {}]", r, a, b);

            let u = rng.sample(&oo) as f64 * SCALE;
            let r = f64::mul_add(u, range, a);
            assert!(r > a && r < b, "open-open {} outside ({}, {})", r, a, b);
        }
    }
}

#[test]
fn unit_numerators_from_known_word() {
    let word: u64 = 0x1234_5678_9abc_def0;
    let top53 = word >> 11;
    let mut rng = ConstRng { word };
    assert_eq!(rng.sample(&StandardUniformClosedOpen {}), top53);
    assert_eq!(rng.sample(&StandardUniformOpenClosed {}), top53 + 1);
    assert_eq!(rng.sample(&StandardUniformOpenOpen {}), top53 | 1);
}

#[test]
fn determinism_across_distribution_calls() {
    let seed: [u64; 4] = [77, 88, 99, 110];
    let u = Uniform::new(0, 12345);
    let mut a = Xoshiro256PlusPlus::new(seed);
    let mut b = Xoshiro256PlusPlus::new(seed);
    for _ in 0..10_000 {
        assert_eq!(a.sample(&u), b.sample(&u));
    }
}

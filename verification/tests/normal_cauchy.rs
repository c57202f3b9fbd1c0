use std::f64::consts::PI;

use xoshiro_rand::distributions::{Distribution, StandardCauchy, StandardNormal};
use xoshiro_rand::rngs::{ConstRng, Rng, Xoshiro256PlusPlus};

const SCALE: f64 = 1.0 / ((1u64 << 53) as f64);

fn box_muller(pair: (u64, u64)) -> (f64, f64) {
    let u1 = pair.0 as f64 * SCALE;
    let u2 = pair.1 as f64 * SCALE;
    let r = f64::sqrt(-2.0 * f64::ln(u1));
    let (sint, cost) = f64::sin_cos(2.0 * PI * u2);
    (r * cost, r * sint)
}

fn cauchy_transform(v: u64) -> f64 {
    let p = v as f64 * SCALE;
    f64::tan(PI * (p - 0.5))
}

#[test]
fn normal_samples_finite_and_converge() {
    let mut rng = Xoshiro256PlusPlus::new([21, 22, 23, 24]);
    let d = StandardNormal {};
    let n: usize = 100_000;
    let mut sum = 0.0f64;
    let mut sum_sq = 0.0f64;
    for _ in 0..n {
        let (z1, z2) = box_muller(rng.sample(&d));
        assert!(z1.is_finite() && z2.is_finite());
        sum += z1 + z2;
        sum_sq += z1 * z1 + z2 * z2;
    }
    let count = (2 * n) as f64;
    let mean = sum / count;
    let var = sum_sq / count - mean * mean;
    assert!(mean.abs() < 0.02, "empirical mean {} too far from 0", mean);
    assert!((var - 1.0).abs() < 0.05, "empirical variance {} too far from 1", var);
}

#[test]
fn normal_scaled_moments() {
    let mean_p = 3.0f64;
    let std_dev = 2.0f64;
    let mut rng = Xoshiro256PlusPlus::new([31, 32, 33, 34]);
    let d = StandardNormal {};
    let n: usize = 100_000;
    let mut sum = 0.0f64;
    let mut sum_sq = 0.0f64;
    for _ in 0..n {
        let (z1, z2) = box_muller(rng.sample(&d));
        let x1 = f64::mul_add(z1, std_dev, mean_p);
        let x2 = f64::mul_add(z2, std_dev, mean_p);
        assert!(x1.is_finite() && x2.is_finite());
        sum += x1 + x2;
        sum_sq += x1 * x1 + x2 * x2;
    }
    let count = (2 * n) as f64;
    let mean = sum / count;
    let var = sum_sq / count - mean * mean;
    assert!((mean - mean_p).abs() < 0.05, "empirical mean {} too far from 3", mean);
    assert!((var - std_dev * std_dev).abs() < 0.2, "empirical variance {} too far from 4", var);
}

#[test]
fn cauchy_samples_finite() {
    let mut rng = Xoshiro256PlusPlus::new([51, 52, 53, 54]);
    let d = StandardCauchy {};
    for _ in 0..100_000 {
        let s = cauchy_transform(rng.sample(&d));
        assert!(s.is_finite());
        let scaled = f64::mul_add(s, 2.5, -1.0);
        assert!(scaled.is_finite());
    }
}

#[test]
fn cauchy_forced_center() {
    // A stub generator forces the raw word whose top 53 bits are 2^52, the
    // numerator of one half. The open-open draw sets the lowest bit, so
    // the probability actually consumed is the representable neighbour
    // 1/2 + 2^-53, and the standard sample is tan(pi * 2^-53): not the
    // exact 0.0 of an unperturbed half, but within one part in 10^15 of it.
    let mut rng = ConstRng { word: 1u64 << 63 };
    let d = StandardCauchy {};
    let v = rng.sample(&d);
    assert_eq!(v, (1u64 << 52) | 1);
    let s = cauchy_transform(v);
    assert!(s.is_finite());
    assert!(s.abs() < 1.0e-15, "forced-center sample {} not near 0", s);
}

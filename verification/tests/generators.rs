use xoshiro_rand::rngs::{
    Rng, Rng32, Xoshiro128Plus, Xoshiro128PlusPlus, Xoshiro256Plus, Xoshiro256PlusPlus,
};

#[test]
fn xoshiro256plusplus_reference_sequence() {
    let mut g = Xoshiro256PlusPlus::new([1, 2, 3, 4]);
    let expected: [u64; 5] = [
        41943041,
        58720359,
        3588806011781223,
        3591011842654386,
        9228616714210784205,
    ];
    for &e in expected.iter() {
        assert_eq!(g.gen(), e);
    }
}

#[test]
fn xoshiro256plus_reference_sequence() {
    let mut g = Xoshiro256Plus::new([1, 2, 3, 4]);
    let expected: [u64; 5] = [
        5,
        211106232532999,
        211106635186183,
        9223759065350669058,
        9250833439874351877,
    ];
    for &e in expected.iter() {
        assert_eq!(g.gen(), e);
    }
}

#[test]
fn xoshiro128plusplus_reference_sequence() {
    let mut g = Xoshiro128PlusPlus::new([1, 2, 3, 4]);
    let expected: [u32; 5] = [641, 1573767, 3222811527, 3517856514, 836907274];
    for &e in expected.iter() {
        assert_eq!(g.gen(), e);
    }
}

#[test]
fn xoshiro128plus_reference_sequence() {
    let mut g = Xoshiro128Plus::new([1, 2, 3, 4]);
    let expected: [u32; 5] = [5, 12295, 25178119, 27286542, 39879690];
    for &e in expected.iter() {
        assert_eq!(g.gen(), e);
    }
}

#[test]
fn fixed_seed_reproduces_sequence() {
    let seed: [u64; 4] = [0x0123_4567_89ab_cdef, 42, 7, 0xffff_ffff_ffff_fffe];
    let mut a = Xoshiro256PlusPlus::new(seed);
    let mut b = Xoshiro256PlusPlus::new(seed);
    for _ in 0..1000 {
        assert_eq!(a.gen(), b.gen());
    }
}

#[test]
fn fixed_seed_reproduces_sequence_128() {
    let seed: [u32; 4] = [0x0123_4567, 42, 7, 0xffff_fffe];
    let mut a = Xoshiro128Plus::new(seed);
    let mut b = Xoshiro128Plus::new(seed);
    for _ in 0..1000 {
        assert_eq!(a.gen(), b.gen());
    }
}

#[test]
fn plus_and_plusplus_share_state_update() {
    // The two scramblers read the same underlying recurrence: states stay
    // equal word for word as both generators advance.
    let mut a = Xoshiro256Plus::new([9, 8, 7, 6]);
    let mut b = Xoshiro256PlusPlus::new([9, 8, 7, 6]);
    for _ in 0..100 {
        a.gen();
        b.gen();
        assert_eq!((a.s0, a.s1, a.s2, a.s3), (b.s0, b.s1, b.s2, b.s3));
    }
}

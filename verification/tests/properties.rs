use lcg::LinearCongruentialGenerator;

#[test]
fn equal_seeds_give_equal_sequences() {
    let mut first = LinearCongruentialGenerator::new(0xDEAD_BEEF_CAFE);
    let mut second = LinearCongruentialGenerator::new(0xDEAD_BEEF_CAFE);

    for _ in 0..100 {
        assert_eq!(first.raw_next(), second.raw_next());
    }
}

#[test]
fn state_stays_below_two_to_the_48() {
    let mut rng = LinearCongruentialGenerator::new(u64::MAX);

    for _ in 0..1000 {
        let raw = rng.raw_next();
        assert!(raw < 1u64 << 48);
        assert_eq!(raw >> 48, 0);
    }
}

#[test]
fn next_u32_is_bits_16_through_47_of_the_raw_output() {
    let mut raw_stream = LinearCongruentialGenerator::new(42);
    let mut u32_stream = LinearCongruentialGenerator::new(42);

    for _ in 0..100 {
        let raw = raw_stream.raw_next();
        let unsigned = u32_stream.next_u32();
        assert_eq!(unsigned as u64, (raw >> 16) & 0xFFFF_FFFF);
    }
}

#[test]
fn next_i32_reinterprets_the_bits_of_next_u32() {
    let mut unsigned_stream = LinearCongruentialGenerator::new(7);
    let mut signed_stream = LinearCongruentialGenerator::new(7);

    for _ in 0..100 {
        let unsigned = unsigned_stream.next_u32();
        let signed = signed_stream.next_i32();
        assert_eq!(signed, unsigned as i32);
        assert!(-2i64.pow(31) <= signed as i64 && (signed as i64) < 2i64.pow(31));
    }
}

#[test]
fn consecutive_outputs_differ() {
    let mut rng = LinearCongruentialGenerator::new(0);

    let mut previous = rng.raw_next();
    for _ in 0..1000 {
        let current = rng.raw_next();
        assert_ne!(current, previous);
        previous = current;
    }
}

#[test]
fn first_output_differs_from_the_seed_except_at_the_fixed_seed() {
    for seed in [0u64, 1, 12345, u64::MAX, 0xC649_5101] {
        let mut rng = LinearCongruentialGenerator::new(seed);
        assert_ne!(rng.raw_next(), seed);
    }

    // The one seed that the scramble-and-step pipeline maps to itself.
    let fixed_seed = 0x2A5_C649_5101u64;
    let mut rng = LinearCongruentialGenerator::new(fixed_seed);
    assert_eq!(rng.raw_next(), fixed_seed);
}

#[test]
fn known_answer_vectors_for_seed_zero() {
    let mut raw_stream = LinearCongruentialGenerator::new(0);
    assert_eq!(raw_stream.raw_next(), 48083817484545);
    assert_eq!(raw_stream.raw_next(), (48083817484545 * 0x5DEECE66Du128 + 0xB) as u64 & 0xFFFF_FFFF_FFFF);

    let mut u32_stream = LinearCongruentialGenerator::new(0);
    assert_eq!(u32_stream.next_u32(), 733700828);

    let mut i32_stream = LinearCongruentialGenerator::new(0);
    assert_eq!(i32_stream.next_i32(), 733700828);
}

#[test]
fn uniform_outputs_stay_in_the_unit_interval() {
    let mut rng = LinearCongruentialGenerator::new(99);

    for _ in 0..10_000 {
        let value = (rng.next_u32() as f64 / u32::MAX as f64) as f32;
        assert!(!value.is_nan());
        assert!(value.is_finite());
        assert!(value >= 0.0);
        assert!(value < 1.0);
    }
}

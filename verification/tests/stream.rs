use city_simulation::rng::SimpleRng;

const FIRST_TEN_FROM_111: [u64; 10] = [
    0xe693399723543124,
    0xe78a8fddc4d9aeea,
    0x2d34d4db78abd1a2,
    0xe962520d578b79f6,
    0x11e694c975268a95,
    0x745f14046e7a83d9,
    0xf1b48d76bfe783e1,
    0x7a6f82e73c32be8b,
    0xb5c6e3e2e3a2af03,
    0x4e09482696621795,
];

#[test]
fn new_keeps_a_nonzero_seed() {
    assert_eq!(SimpleRng::new(5).state(), 5);
    assert_eq!(SimpleRng::new(111).state(), 111);
    assert_eq!(SimpleRng::new(u64::MAX).state(), u64::MAX);
}

#[test]
fn new_replaces_seed_zero_by_one() {
    assert_eq!(SimpleRng::new(0).state(), 1);
    assert_eq!(SimpleRng::new(1).state(), 1);
}

#[test]
fn first_word_from_seed_111() {
    let mut rng = SimpleRng::new(111);
    assert_eq!(rng.next_u64(), 16614686771595456804);
    assert_eq!(rng.state(), 0xde000074);
}

#[test]
fn first_ten_words_from_seed_111() {
    let mut rng = SimpleRng::new(111);
    for expected in FIRST_TEN_FROM_111 {
        assert_eq!(rng.next_u64(), expected);
    }
}

#[test]
fn first_ten_words_from_seed_111_repeat() {
    for _ in 0..5 {
        let mut rng = SimpleRng::new(111);
        let drawn: Vec<u64> = (0..10).map(|_| rng.next_u64()).collect();
        assert_eq!(drawn, FIRST_TEN_FROM_111.to_vec());
    }
}

#[test]
fn first_steps_from_seed_one() {
    let mut rng = SimpleRng::new(1);
    assert_eq!(rng.next_u64(), 0x47e4ce4b896cdd1d);
    assert_eq!(rng.state(), 0x2000001);
    assert_eq!(rng.next_u64(), 0xabcfa6a8e079651d);
    assert_eq!(rng.state(), 0x4004000802801);
    assert_eq!(rng.next_u64(), 0xb9d10d8feb731f57);
    assert_eq!(rng.state(), 0xd004003202803);
}

#[test]
fn multiplication_wraps_without_fault() {
    let mut rng = SimpleRng::new(u64::MAX);
    let word = rng.next_u64();
    assert_eq!(word, rng.state().wrapping_mul(0x2545F4914F6CDD1D));
}

#[test]
fn same_seed_gives_same_stream() {
    for seed in [0u64, 1, 2, 111, 0xdead_beef, u64::MAX] {
        let mut a = SimpleRng::new(seed);
        let mut b = SimpleRng::new(seed);
        for _ in 0..10_000 {
            assert_eq!(a.next_u64(), b.next_u64());
        }
        assert_eq!(a.state(), b.state());
    }
}

#[test]
fn different_seeds_give_different_first_words() {
    let mut a = SimpleRng::new(1);
    let mut b = SimpleRng::new(2);
    assert_ne!(a.next_u64(), b.next_u64());
}

#[test]
fn seed_zero_draws_as_seed_one() {
    let mut zero = SimpleRng::new(0);
    let mut one = SimpleRng::new(1);
    for _ in 0..10_000 {
        assert_eq!(zero.next_u64(), one.next_u64());
    }
    let mut zero = SimpleRng::new(0);
    let mut one = SimpleRng::new(1);
    for _ in 0..1_000 {
        assert_eq!(zero.next_u32(), one.next_u32());
        assert_eq!(zero.next_scaled().to_bits(), one.next_scaled().to_bits());
    }
}

fn state_stays_nonzero(seed: u64) {
    let mut rng = SimpleRng::new(seed);
    for _ in 0..1_000_000 {
        rng.next_u64();
        assert_ne!(rng.state(), 0);
    }
}

#[test]
fn state_never_zero_from_seed_1() {
    state_stays_nonzero(1);
}

#[test]
fn state_never_zero_from_seed_2() {
    state_stays_nonzero(2);
}

#[test]
fn state_never_zero_from_seed_3() {
    state_stays_nonzero(3);
}

#[test]
fn state_never_zero_from_large_seeds() {
    state_stays_nonzero(111);
    state_stays_nonzero(1 << 63);
    state_stays_nonzero(u64::MAX);
}

#[test]
fn next_u32_is_low_half_of_next_u64() {
    for seed in [0u64, 1, 2, 3, 111, u64::MAX] {
        let mut narrow = SimpleRng::new(seed);
        let mut wide = SimpleRng::new(seed);
        for _ in 0..10_000 {
            let word = wide.next_u64();
            assert_eq!(narrow.next_u32(), word as u32);
            assert_eq!(narrow.state(), wide.state());
        }
    }
}

#[test]
fn first_u32_from_seed_111() {
    let mut rng = SimpleRng::new(111);
    assert_eq!(rng.next_u32(), 0x23543124);
    assert_eq!(rng.next_u32(), 0xc4d9aeea);
}

#[test]
fn distinct_states_advance_to_distinct_states() {
    let mut seen = std::collections::HashSet::new();
    for seed in 1u64..=10_000 {
        let mut rng = SimpleRng::new(seed);
        rng.next_u64();
        assert!(seen.insert(rng.state()));
    }
}

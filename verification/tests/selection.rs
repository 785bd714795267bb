use native_bot::selection::{clamp_level, randomizes, Rng, SelectionParams};

/// The same seed must reproduce the same draw sequence.
#[test]
fn rng_is_deterministic_for_a_seed() {
    let mut a = Rng::new(42);
    let mut b = Rng::new(42);
    for _ in 0..100 {
        assert_eq!(a.next_fraction_bits(), b.next_fraction_bits());
    }
}

/// level 0 / a single candidate never randomizes.
#[test]
fn disabled_or_singleton_returns_none() {
    assert!(!randomizes(0, 3));
    assert!(!randomizes(3, 1));
    assert!(!randomizes(3, 0));
    assert!(randomizes(3, 2));
}

#[test]
fn xorshift64_star_draws_for_seed_42() {
    let mut r = Rng::new(42);
    assert_eq!(r.next_u64(), 6255019084209693600);
    assert_eq!(r.next_u64(), 14430073426741505498);
    assert_eq!(r.next_fraction_bits(), 7116921805288192);
}

#[test]
fn zero_seed_counts_as_one() {
    let mut z = Rng::new(0);
    let mut o = Rng::new(1);
    let x = z.next_u64();
    assert_eq!(x, 5180492295206395165);
    assert_eq!(x, o.next_u64());
    let mut c = z.clone();
    assert_eq!(c.next_u64(), z.next_u64());
}

#[test]
fn fraction_bits_stay_below_two_to_the_53() {
    let mut r = Rng::new(u64::MAX);
    for _ in 0..1000 {
        assert!(r.next_fraction_bits() < (1u64 << 53));
    }
}

#[test]
fn clamp_level_into_one_to_five() {
    assert_eq!(clamp_level(0), 1);
    assert_eq!(clamp_level(1), 1);
    assert_eq!(clamp_level(3), 3);
    assert_eq!(clamp_level(5), 5);
    assert_eq!(clamp_level(200), 5);
}

#[test]
fn selection_defaults_to_off() {
    assert_eq!(SelectionParams::default().randomize_level, 0);
}

use buzzcurse::power::{PowerAccumulator, DECAY_STEP, DECAY_TICKS, MAX_POWER, POWER_ONE};

#[test]
fn constants_are_the_stated_fractions_of_one() {
    assert_eq!(POWER_ONE, 100_000);
    assert_eq!(MAX_POWER as f64 / POWER_ONE as f64, 1.5);
    assert_eq!(DECAY_STEP as f64 / POWER_ONE as f64, 0.25);
    assert_eq!(DECAY_TICKS, (MAX_POWER + DECAY_STEP - 1) / DECAY_STEP);
    assert_eq!(DECAY_TICKS, 6);
}

#[test]
fn new_accumulator_is_empty() {
    let mut acc = PowerAccumulator::new();
    assert_eq!(acc.drain_decayed(), 0);
    assert_eq!(acc.drain_decayed(), 0);
}

#[test]
fn add_increases_by_delta() {
    let mut acc = PowerAccumulator::new();
    acc.add(10_000);
    acc.add(2_345);
    assert_eq!(acc.drain_decayed(), 12_345);
}

#[test]
fn drain_returns_clamped_and_leaves_one_step_less() {
    let mut acc = PowerAccumulator::new();
    acc.add(500_000);
    assert_eq!(acc.drain_decayed(), 150_000);
    assert_eq!(acc.drain_decayed(), 125_000);
    assert_eq!(acc.drain_decayed(), 100_000);
}

#[test]
fn drain_of_less_than_a_step_leaves_nothing() {
    let mut acc = PowerAccumulator::new();
    acc.add(24_999);
    assert_eq!(acc.drain_decayed(), 24_999);
    assert_eq!(acc.drain_decayed(), 0);
    acc.add(25_000);
    assert_eq!(acc.drain_decayed(), 25_000);
    assert_eq!(acc.drain_decayed(), 0);
    acc.add(25_001);
    assert_eq!(acc.drain_decayed(), 25_001);
    assert_eq!(acc.drain_decayed(), 1);
}

#[test]
fn value_stays_in_bounds_after_every_drain() {
    let mut acc = PowerAccumulator::new();
    let deltas: [u128; 9] =
        [0, 1, 30_000, 149_999, 150_000, 150_001, 1_000_000, u64::MAX as u128, u128::MAX];
    for round in 0..40usize {
        let adds: usize = round % 4;
        for k in 0..adds {
            acc.add(deltas[(round + k) % deltas.len()]);
        }
        let out: u64 = acc.drain_decayed();
        assert!(out <= MAX_POWER);
        let rest: u64 = if out > DECAY_STEP { out - DECAY_STEP } else { 0 };
        let mut copy = PowerAccumulator::new();
        copy.add(rest as u128);
        let seen: u64 = acc.drain_decayed();
        assert_eq!(seen, copy.drain_decayed());
        assert!(seen <= MAX_POWER - DECAY_STEP);
    }
}

#[test]
fn repeated_drains_reach_zero_within_the_stated_count() {
    let mut acc = PowerAccumulator::new();
    acc.add(u128::MAX);
    let expected: [u64; 6] = [150_000, 125_000, 100_000, 75_000, 50_000, 25_000];
    for want in expected {
        assert_eq!(acc.drain_decayed(), want);
    }
    for _ in 0..10usize {
        assert_eq!(acc.drain_decayed(), 0);
    }
}

#[test]
fn saturated_additions_drain_like_exact_ones() {
    let mut acc = PowerAccumulator::new();
    acc.add(u64::MAX as u128);
    acc.add(u64::MAX as u128);
    acc.add(u128::MAX);
    acc.add(7);
    assert_eq!(acc.drain_decayed(), MAX_POWER);
    assert_eq!(acc.drain_decayed(), MAX_POWER - DECAY_STEP);
}

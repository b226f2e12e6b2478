use quic_path::rtt::RttEstimator;
use quic_path::rtt::TIMER_GRANULARITY;

/// Nanoseconds per millisecond.
const MS: u64 = 1_000_000;

#[test]
fn first_sample_seeding_overrides_guess() {
    let mut e = RttEstimator::new(333 * MS);
    assert_eq!(e.latest, 333 * MS);
    assert_eq!(e.smoothed, None);
    assert_eq!(e.var, 333 * MS / 2);
    assert_eq!(e.min, 333 * MS);
    e.update(50 * MS, 100 * MS);
    assert_eq!(e.latest, 100 * MS);
    assert_eq!(e.smoothed, Some(100 * MS));
    assert_eq!(e.var, 50 * MS);
    assert_eq!(e.min, 100 * MS);
}

#[test]
fn first_sample_seeding_ignores_guess_and_delay() {
    let mut a = RttEstimator::new(1);
    let mut b = RttEstimator::new(999 * MS);
    a.update(0, 80 * MS);
    b.update(77 * MS, 80 * MS);
    assert_eq!(a.smoothed, b.smoothed);
    assert_eq!(a.var, b.var);
    assert_eq!(a.min, b.min);
    assert_eq!(a.latest, b.latest);
}

#[test]
fn smoothing_formula_sequence() {
    let mut e = RttEstimator::new(999 * MS);
    e.update(0, 100 * MS);
    assert_eq!(e.smoothed, Some(100 * MS));
    assert_eq!(e.var, 50 * MS);

    // Second sample: delay 0, rtt 120 ms; the minimum stays 100 ms and the
    // adjusted sample is 120 ms.
    e.update(0, 120 * MS);
    assert_eq!(e.min, 100 * MS);
    assert_eq!(e.var, (3 * 50 * MS + 20 * MS) / 4);
    assert_eq!(e.var, 42_500_000);
    assert_eq!(e.smoothed, Some((7 * 100 * MS + 120 * MS) / 8));
    assert_eq!(e.smoothed, Some(102_500_000));

    // Third sample: a plausible 10 ms delay is subtracted (100 + 10 < 115),
    // so the adjusted sample is 105 ms.
    e.update(10 * MS, 115 * MS);
    assert_eq!(e.min, 100 * MS);
    assert_eq!(e.var, 32_500_000);
    assert_eq!(e.smoothed, Some(102_812_500));
}

#[test]
fn implausible_ack_delay_is_ignored() {
    let mut e = RttEstimator::new(999 * MS);
    e.update(0, 100 * MS);
    // min is 100 ms; subtracting a 50 ms delay from a 105 ms sample would
    // put the network RTT below the observed floor, so the delay is ignored.
    e.update(50 * MS, 105 * MS);
    assert_eq!(e.var, (3 * 50 * MS + 5 * MS) / 4);
    assert_eq!(e.smoothed, Some((7 * 100 * MS + 105 * MS) / 8));
}

#[test]
fn get_delegates_to_latest_then_smoothed() {
    let mut e = RttEstimator::new(77 * MS);
    assert_eq!(e.get(), 77 * MS);
    e.update(0, 50 * MS);
    assert_eq!(e.get(), 50 * MS);
    e.update(0, 90 * MS);
    assert_eq!(e.get(), e.smoothed.unwrap());
}

#[test]
fn conservative_takes_the_pessimistic_estimate() {
    let mut e = RttEstimator::new(10 * MS);
    assert_eq!(e.conservative(), 10 * MS);
    e.update(0, 100 * MS);
    e.update(0, 10 * MS);
    assert!(e.smoothed.unwrap() > e.latest);
    assert_eq!(e.conservative(), e.smoothed.unwrap());
    e.update(0, 500 * MS);
    assert!(e.latest > e.smoothed.unwrap());
    assert_eq!(e.conservative(), e.latest);
}

#[test]
fn pto_base_applies_granularity_floor() {
    let mut e = RttEstimator::new(4);
    e.update(0, 2_000);
    // var is 1000 ns, so 4·var sits far below the granularity floor.
    assert_eq!(e.pto_base(), 2_000 + TIMER_GRANULARITY);
}

#[test]
fn pto_base_uses_variance_term() {
    let mut e = RttEstimator::new(1);
    e.update(0, 100 * MS);
    // var is 50 ms, so 4·var = 200 ms dominates the floor.
    assert_eq!(e.pto_base(), 100 * MS + 4 * 50 * MS);
}

#[test]
fn pto_base_monotone_in_variance() {
    let low = RttEstimator { latest: 30 * MS, smoothed: Some(30 * MS), var: 250_000, min: 20 * MS };
    let mid = RttEstimator { latest: 30 * MS, smoothed: Some(30 * MS), var: 1_000_000, min: 20 * MS };
    let high = RttEstimator { latest: 30 * MS, smoothed: Some(30 * MS), var: 5_000_000, min: 20 * MS };
    assert_eq!(low.get(), mid.get());
    assert_eq!(mid.get(), high.get());
    assert!(low.pto_base() <= mid.pto_base());
    assert!(mid.pto_base() <= high.pto_base());
    assert!(low.pto_base() >= low.get() + TIMER_GRANULARITY);
    assert!(mid.pto_base() >= mid.get() + TIMER_GRANULARITY);
    assert!(high.pto_base() >= high.get() + TIMER_GRANULARITY);
}

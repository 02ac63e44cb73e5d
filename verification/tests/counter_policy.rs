//! The sample order and the counter rollback policy on concrete readings.

use starlink_exporter::counter::{CounterAction, CounterState};
use starlink_exporter::sample::{flag_sample, sample_lt, SAMPLE_ONE, SAMPLE_ZERO};

#[test]
fn sample_order_matches_readings() {
    let pairs: [(f64, f64); 7] = [
        (0.0, 1.0),
        (1.0, 100.5),
        (-1.0, 0.0),
        (-100.25, -1.5),
        (0.0, -0.0),
        (-0.0, 0.0),
        (f64::NEG_INFINITY, f64::INFINITY),
    ];
    for (a, b) in pairs {
        assert_eq!(sample_lt(a.to_bits(), b.to_bits()), a < b);
        assert_eq!(sample_lt(b.to_bits(), a.to_bits()), b < a);
    }
}

#[test]
fn flag_coerces_to_exactly_one_or_zero() {
    assert_eq!(flag_sample(true), (1.0f64).to_bits());
    assert_eq!(flag_sample(false), (0.0f64).to_bits());
    assert_eq!(flag_sample(true), SAMPLE_ONE);
    assert_eq!(flag_sample(false), SAMPLE_ZERO);
}

#[test]
fn counter_monotonic_or_reset_sequence() {
    // Raw readings 100, 150, 90: the exposed value tracks each reading,
    // and the rollback drops the accumulated value rather than adding.
    let mut st = CounterState::new();
    assert_eq!(st.exposed, (0.0f64).to_bits());

    let a = st.reconcile((100.0f64).to_bits());
    assert_eq!(a, CounterAction::Increment);
    assert_eq!(st.exposed, (100.0f64).to_bits());

    let b = st.reconcile((150.0f64).to_bits());
    assert_eq!(b, CounterAction::Increment);
    assert_eq!(st.exposed, (150.0f64).to_bits());

    let c = st.reconcile((90.0f64).to_bits());
    assert_eq!(c, CounterAction::Reset);
    assert_eq!(st.exposed, (90.0f64).to_bits());
}

#[test]
fn counter_unchanged_reading_is_no_change() {
    let mut st = CounterState::new();
    st.reconcile((42.0f64).to_bits());
    let a = st.reconcile((42.0f64).to_bits());
    assert_eq!(a, CounterAction::NoChange);
    assert_eq!(st.exposed, (42.0f64).to_bits());
}

#[test]
fn counter_negative_reading_is_a_rollback() {
    let mut st = CounterState::new();
    let a = st.reconcile((-5.0f64).to_bits());
    assert_eq!(a, CounterAction::Reset);
    assert_eq!(st.exposed, (-5.0f64).to_bits());
    assert_eq!(st.last_raw, (-5.0f64).to_bits());
}

#[test]
fn counter_shadow_always_takes_the_reading() {
    let mut st = CounterState::new();
    for raw in [3.5f64, 3.5, 1.25, 8.0] {
        st.reconcile(raw.to_bits());
        assert_eq!(st.last_raw, raw.to_bits());
        assert_eq!(st.exposed, st.last_raw);
    }
}

//! The snapshot reconciler on concrete snapshots.

use starlink_exporter::counter::CounterAction;
use starlink_exporter::error::Error;
use starlink_exporter::metrics::Metrics;
use starlink_exporter::snapshot::{Alerts, DeviceInfo, DeviceState, DishStatus, ObstructionStats};
use starlink_exporter::update::{update_gauge, update_flag, update_vector, WEDGE_COUNT};

fn empty_status() -> DishStatus {
    DishStatus {
        device_info: None,
        device_state: None,
        state: None,
        alerts: None,
        snr: None,
        seconds_to_first_nonempty_slot: None,
        pop_ping_drop_rate: None,
        downlink_throughput_bps: None,
        uplink_throughput_bps: None,
        pop_ping_latency_ms: None,
        obstruction_stats: None,
    }
}

fn empty_obstruction() -> ObstructionStats {
    ObstructionStats {
        currently_obstructed: None,
        fraction_obstructed: None,
        last_24h_obstructed_s: None,
        valid_s: None,
        wedge_fraction_obstructed: Vec::new(),
        wedge_abs_fraction_obstructed: Vec::new(),
    }
}

#[test]
fn absent_top_level_response_mutates_nothing() {
    let mut m = Metrics::new();
    m.snr = (7.25f64).to_bits();
    m.uptime_s.reconcile((50.0f64).to_bits());
    let before = m.clone();

    let r = m.update(None);

    let acts = r.expect("an absent response is a success");
    assert_eq!(m, before);
    assert_eq!(acts.uptime_s, CounterAction::NoChange);
    assert_eq!(acts.obstruction_last_24h_obstructed_s, CounterAction::NoChange);
    assert_eq!(acts.obstruction_valid_s, CounterAction::NoChange);
}

#[test]
fn absent_fields_keep_prior_values() {
    let mut m = Metrics::new();
    m.snr = (9.0f64).to_bits();
    m.alert_motors_stuck = (1.0f64).to_bits();
    m.state = (1.0f64).to_bits();
    let before = m.clone();

    let mut status = empty_status();
    status.pop_ping_latency_ms = Some((33.5f64).to_bits());
    m.update(Some(status)).expect("snapshot fits the label sets");

    assert_eq!(m.pop_ping_latency_ms, (33.5f64).to_bits());
    assert_eq!(m.snr, before.snr);
    assert_eq!(m.alert_motors_stuck, before.alert_motors_stuck);
    assert_eq!(m.state, before.state);
    assert_eq!(m.device_info, before.device_info);
    assert_eq!(m.uptime_s, before.uptime_s);
}

#[test]
fn present_fields_overwrite() {
    let mut m = Metrics::new();
    let mut status = empty_status();
    status.device_info = Some(DeviceInfo {
        software_version: Some("v2.1".to_string()),
        country_code: Some("DE".to_string()),
    });
    status.device_state = Some(DeviceState { uptime_s: Some((3600.0f64).to_bits()) });
    status.state = Some((1.0f64).to_bits());
    status.alerts = Some(Alerts {
        motors_stuck: Some(false),
        thermal_throttle: Some(true),
        thermal_shutdown: None,
        mast_not_near_vertical: Some(false),
        unexpected_location: None,
        slow_ethernet_speeds: Some(true),
    });
    status.snr = Some((12.5f64).to_bits());
    status.downlink_throughput_bps = Some((1.5e6f64).to_bits());
    let mut obs = empty_obstruction();
    obs.currently_obstructed = Some(true);
    obs.fraction_obstructed = Some((0.125f64).to_bits());
    obs.last_24h_obstructed_s = Some((60.0f64).to_bits());
    obs.valid_s = Some((86400.0f64).to_bits());
    obs.wedge_fraction_obstructed = vec![(0.25f64).to_bits(); WEDGE_COUNT];
    status.obstruction_stats = Some(obs);

    let acts = m.update(Some(status)).expect("snapshot fits the label sets");

    let labels = m.device_info.clone().expect("identity labels were reported");
    assert_eq!(labels.software_version, "v2.1");
    assert_eq!(labels.country_code, "DE");
    assert_eq!(m.uptime_s.exposed, (3600.0f64).to_bits());
    assert_eq!(m.state, (1.0f64).to_bits());
    assert_eq!(m.alert_motors_stuck, (0.0f64).to_bits());
    assert_eq!(m.alert_thermal_throttle, (1.0f64).to_bits());
    assert_eq!(m.alert_thermal_shutdown, (0.0f64).to_bits());
    assert_eq!(m.alert_mast_not_near_vertical, (0.0f64).to_bits());
    assert_eq!(m.alert_slow_ethernet_speeds, (1.0f64).to_bits());
    assert_eq!(m.snr, (12.5f64).to_bits());
    assert_eq!(m.downlink_throughput_bps, (1.5e6f64).to_bits());
    assert_eq!(m.obstruction_currently_obstructed, (1.0f64).to_bits());
    assert_eq!(m.obstruction_fraction_obstructed, (0.125f64).to_bits());
    assert_eq!(m.obstruction_last_24h_obstructed_s.exposed, (60.0f64).to_bits());
    assert_eq!(m.obstruction_valid_s.exposed, (86400.0f64).to_bits());
    for i in 0..WEDGE_COUNT {
        assert_eq!(m.obstruction_wedge_fraction_obstructed[i], (0.25f64).to_bits());
        assert_eq!(m.obstruction_wedge_abs_fraction_obstructed[i], (0.0f64).to_bits());
    }
    assert_eq!(acts.uptime_s, CounterAction::Increment);
    assert_eq!(acts.obstruction_last_24h_obstructed_s, CounterAction::Increment);
    assert_eq!(acts.obstruction_valid_s, CounterAction::Increment);
}

#[test]
fn missing_identity_label_refuses_the_pass() {
    let mut m = Metrics::new();
    m.snr = (5.0f64).to_bits();
    let before = m.clone();

    let mut status = empty_status();
    status.device_info = Some(DeviceInfo {
        software_version: Some("v2.1".to_string()),
        country_code: None,
    });
    status.snr = Some((99.0f64).to_bits());

    let r = m.update(Some(status));

    assert_eq!(r, Err(Error::LabelCardinality));
    assert_eq!(m, before);
}

#[test]
fn oversized_wedge_vector_refuses_the_pass() {
    let mut m = Metrics::new();
    m.state = (2.0f64).to_bits();
    let before = m.clone();

    let mut status = empty_status();
    status.state = Some((3.0f64).to_bits());
    let mut obs = empty_obstruction();
    obs.wedge_fraction_obstructed = vec![(0.5f64).to_bits(); WEDGE_COUNT + 1];
    status.obstruction_stats = Some(obs);

    let r = m.update(Some(status));

    assert_eq!(r, Err(Error::LabelCardinality));
    assert_eq!(m, before);
}

#[test]
fn update_gauge_overwrites_only_when_present() {
    let mut g = (4.0f64).to_bits();
    update_gauge(&mut g, None);
    assert_eq!(g, (4.0f64).to_bits());
    update_gauge(&mut g, Some((0.0f64).to_bits()));
    assert_eq!(g, (0.0f64).to_bits());
}

#[test]
fn update_flag_overwrites_only_when_present() {
    let mut g = (1.0f64).to_bits();
    update_flag(&mut g, None);
    assert_eq!(g, (1.0f64).to_bits());
    update_flag(&mut g, Some(false));
    assert_eq!(g, (0.0f64).to_bits());
    update_flag(&mut g, Some(true));
    assert_eq!(g, (1.0f64).to_bits());
}

#[test]
fn vector_index_stability_on_a_shorter_rerun() {
    // Twelve values land on wedges "0" through "11"; a rerun with six
    // values leaves wedges "6" through "11" as the first run set them.
    let mut wedges = vec![(0.0f64).to_bits(); WEDGE_COUNT];
    let full: Vec<u64> = (0..WEDGE_COUNT).map(|i| (i as f64 * 0.5).to_bits()).collect();
    update_vector(&mut wedges, &full).expect("twelve values fit twelve wedges");
    for i in 0..WEDGE_COUNT {
        assert_eq!(wedges[i], full[i]);
    }

    let shorter: Vec<u64> = (0..6).map(|i| (100.0 + i as f64).to_bits()).collect();
    update_vector(&mut wedges, &shorter).expect("six values fit twelve wedges");
    for i in 0..6 {
        assert_eq!(wedges[i], shorter[i]);
    }
    for i in 6..WEDGE_COUNT {
        assert_eq!(wedges[i], full[i]);
    }
}

#[test]
fn vector_too_long_is_refused_and_unchanged() {
    let mut wedges = vec![(0.75f64).to_bits(); WEDGE_COUNT];
    let too_long = vec![(0.1f64).to_bits(); WEDGE_COUNT + 1];
    let r = update_vector(&mut wedges, &too_long);
    assert_eq!(r, Err(Error::LabelCardinality));
    for i in 0..WEDGE_COUNT {
        assert_eq!(wedges[i], (0.75f64).to_bits());
    }
}

//! The catalog carries the exact names consumers scrape by.

use starlink_exporter::catalog::{catalog, identity_labels, MetricKind};

#[test]
fn catalog_names_are_exact() {
    let defs = catalog();
    assert_eq!(defs.len(), 21);
    let expected: [(&str, &str, MetricKind); 21] = [
        ("", "device_info", MetricKind::GaugeVector),
        ("", "uptime_s", MetricKind::Counter),
        ("", "state", MetricKind::Gauge),
        ("alert", "motors_stuck", MetricKind::Gauge),
        ("alert", "thermal_throttle", MetricKind::Gauge),
        ("alert", "thermal_shutdown", MetricKind::Gauge),
        ("alert", "mast_not_near_vertical", MetricKind::Gauge),
        ("alert", "unexpected_location", MetricKind::Gauge),
        ("alert", "slow_ethernet_speeds", MetricKind::Gauge),
        ("", "snr", MetricKind::Gauge),
        ("", "seconds_to_first_nonempty_slot", MetricKind::Gauge),
        ("", "pop_ping_drop_rate", MetricKind::Gauge),
        ("", "downlink_throughput_bps", MetricKind::Gauge),
        ("", "uplink_throughput_bps", MetricKind::Gauge),
        ("", "pop_ping_latency_ms", MetricKind::Gauge),
        ("obstruction", "currently_obstructed", MetricKind::Gauge),
        ("obstruction", "fraction_obstructed", MetricKind::Gauge),
        ("obstruction", "last_24h_obstructed_s", MetricKind::Counter),
        ("obstruction", "valid_s", MetricKind::Counter),
        ("obstruction", "wedge_fraction_obstructed", MetricKind::GaugeVector),
        ("obstruction", "wedge_abs_fraction_obstructed", MetricKind::GaugeVector),
    ];
    for (def, (subsystem, name, kind)) in defs.iter().zip(expected.iter()) {
        assert_eq!(def.namespace, "dish");
        assert_eq!(&def.subsystem, subsystem);
        assert_eq!(&def.name, name);
        assert_eq!(&def.kind, kind);
        assert!(!def.help.is_empty());
    }
    assert_eq!(defs[1].help, "Dish uptime in seconds.");
    assert_eq!(defs[17].help, "Obstruction: Obstructed seconds in the last 24 hours.");
}

#[test]
fn catalog_exposed_names_are_unique() {
    let defs = catalog();
    let mut full_names: Vec<String> = defs
        .iter()
        .map(|d| {
            if d.subsystem.is_empty() {
                format!("{}_{}", d.namespace, d.name)
            } else {
                format!("{}_{}_{}", d.namespace, d.subsystem, d.name)
            }
        })
        .collect();
    full_names.sort();
    full_names.dedup();
    assert_eq!(full_names.len(), 21);
}

#[test]
fn catalog_label_schemas() {
    let defs = catalog();
    assert_eq!(defs[0].label_names, vec!["software_version", "country_code"]);
    assert_eq!(defs[19].label_names, vec!["wedge"]);
    assert_eq!(defs[20].label_names, vec!["wedge"]);
    for def in &defs[1..19] {
        assert!(def.label_names.is_empty());
    }
}

#[test]
fn identity_labels_follow_presence() {
    let both = identity_labels(Some("ut01".to_string()), Some("rev2".to_string()));
    assert_eq!(
        both,
        vec![
            ("id".to_string(), "ut01".to_string()),
            ("hardware_version".to_string(), "rev2".to_string()),
        ]
    );

    let only_id = identity_labels(Some("ut01".to_string()), None);
    assert_eq!(only_id, vec![("id".to_string(), "ut01".to_string())]);

    let only_hw = identity_labels(None, Some("rev2".to_string()));
    assert_eq!(only_hw, vec![("hardware_version".to_string(), "rev2".to_string())]);

    assert!(identity_labels(None, None).is_empty());
}

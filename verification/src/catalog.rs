//! The metric catalog: the fixed set of metric definitions.
//!
//! Each definition carries the parts the exposition library assembles
//! into the exposed metric name — namespace, optional subsystem, and
//! base name — together with its help text, its kind, and its label
//! schema. The names are an external contract: a consumer dashboards
//! against them, so they are stated here character for character and
//! never computed.
//!
//! The boot-time identity labels (device id, hardware version) are
//! resolved once by a separate query and attached to the whole registry;
//! `identity_labels` builds that label set from whichever of the two
//! fields the device reported.

use vstd::prelude::*;
use vstd::string::StringExecFns;

verus! {

/// What kind of metric a definition declares.
#[derive(Clone, Copy, Debug, PartialEq, Eq, Structural)]
pub enum MetricKind {
    /// A value expected to only increase between resets.
    Counter,
    /// A freely settable point-in-time measurement.
    Gauge,
    /// A gauge with one time series per distinct label value.
    GaugeVector,
}

/// One immutable metric definition. The exposed name is the namespace,
/// the subsystem (when not empty) and the base name joined by
/// underscores; scalar kinds have an empty label schema.
pub struct MetricSpec {
    pub namespace: &'static str,
    pub subsystem: &'static str,
    pub name: &'static str,
    pub help: &'static str,
    pub kind: MetricKind,
    pub label_names: Vec<&'static str>,
}

/// The full catalog, in registration order: one definition per field of
/// `crate::metrics::Metrics`, with the exact names, kinds, subsystems
/// and label schemas the consumers depend on.
pub fn catalog() -> (r: Vec<MetricSpec>)
    ensures
        r@.len() == 21,
        r@[0].namespace@ == "dish"@ && r@[0].subsystem@ == ""@ && r@[0].name@ == "device_info"@
            && r@[0].kind == MetricKind::GaugeVector && r@[0].label_names@.len() == 2
            && r@[0].label_names@[0]@ == "software_version"@
            && r@[0].label_names@[1]@ == "country_code"@,
        r@[1].namespace@ == "dish"@ && r@[1].subsystem@ == ""@ && r@[1].name@ == "uptime_s"@
            && r@[1].kind == MetricKind::Counter && r@[1].label_names@.len() == 0,
        r@[2].namespace@ == "dish"@ && r@[2].subsystem@ == ""@ && r@[2].name@ == "state"@
            && r@[2].kind == MetricKind::Gauge && r@[2].label_names@.len() == 0,
        r@[3].namespace@ == "dish"@ && r@[3].subsystem@ == "alert"@ && r@[3].name@
            == "motors_stuck"@ && r@[3].kind == MetricKind::Gauge && r@[3].label_names@.len()
            == 0,
        r@[4].namespace@ == "dish"@ && r@[4].subsystem@ == "alert"@ && r@[4].name@
            == "thermal_throttle"@ && r@[4].kind == MetricKind::Gauge
            && r@[4].label_names@.len() == 0,
        r@[5].namespace@ == "dish"@ && r@[5].subsystem@ == "alert"@ && r@[5].name@
            == "thermal_shutdown"@ && r@[5].kind == MetricKind::Gauge
            && r@[5].label_names@.len() == 0,
        r@[6].namespace@ == "dish"@ && r@[6].subsystem@ == "alert"@ && r@[6].name@
            == "mast_not_near_vertical"@ && r@[6].kind == MetricKind::Gauge
            && r@[6].label_names@.len() == 0,
        r@[7].namespace@ == "dish"@ && r@[7].subsystem@ == "alert"@ && r@[7].name@
            == "unexpected_location"@ && r@[7].kind == MetricKind::Gauge
            && r@[7].label_names@.len() == 0,
        r@[8].namespace@ == "dish"@ && r@[8].subsystem@ == "alert"@ && r@[8].name@
            == "slow_ethernet_speeds"@ && r@[8].kind == MetricKind::Gauge
            && r@[8].label_names@.len() == 0,
        r@[9].namespace@ == "dish"@ && r@[9].subsystem@ == ""@ && r@[9].name@ == "snr"@
            && r@[9].kind == MetricKind::Gauge && r@[9].label_names@.len() == 0,
        r@[10].namespace@ == "dish"@ && r@[10].subsystem@ == ""@ && r@[10].name@
            == "seconds_to_first_nonempty_slot"@ && r@[10].kind == MetricKind::Gauge
            && r@[10].label_names@.len() == 0,
        r@[11].namespace@ == "dish"@ && r@[11].subsystem@ == ""@ && r@[11].name@
            == "pop_ping_drop_rate"@ && r@[11].kind == MetricKind::Gauge
            && r@[11].label_names@.len() == 0,
        r@[12].namespace@ == "dish"@ && r@[12].subsystem@ == ""@ && r@[12].name@
            == "downlink_throughput_bps"@ && r@[12].kind == MetricKind::Gauge
            && r@[12].label_names@.len() == 0,
        r@[13].namespace@ == "dish"@ && r@[13].subsystem@ == ""@ && r@[13].name@
            == "uplink_throughput_bps"@ && r@[13].kind == MetricKind::Gauge
            && r@[13].label_names@.len() == 0,
        r@[14].namespace@ == "dish"@ && r@[14].subsystem@ == ""@ && r@[14].name@
            == "pop_ping_latency_ms"@ && r@[14].kind == MetricKind::Gauge
            && r@[14].label_names@.len() == 0,
        r@[15].namespace@ == "dish"@ && r@[15].subsystem@ == "obstruction"@ && r@[15].name@
            == "currently_obstructed"@ && r@[15].kind == MetricKind::Gauge
            && r@[15].label_names@.len() == 0,
        r@[16].namespace@ == "dish"@ && r@[16].subsystem@ == "obstruction"@ && r@[16].name@
            == "fraction_obstructed"@ && r@[16].kind == MetricKind::Gauge
            && r@[16].label_names@.len() == 0,
        r@[17].namespace@ == "dish"@ && r@[17].subsystem@ == "obstruction"@ && r@[17].name@
            == "last_24h_obstructed_s"@ && r@[17].kind == MetricKind::Counter
            && r@[17].label_names@.len() == 0,
        r@[18].namespace@ == "dish"@ && r@[18].subsystem@ == "obstruction"@ && r@[18].name@
            == "valid_s"@ && r@[18].kind == MetricKind::Counter && r@[18].label_names@.len()
            == 0,
        r@[19].namespace@ == "dish"@ && r@[19].subsystem@ == "obstruction"@ && r@[19].name@
            == "wedge_fraction_obstructed"@ && r@[19].kind == MetricKind::GaugeVector
            && r@[19].label_names@.len() == 1 && r@[19].label_names@[0]@ == "wedge"@,
        r@[20].namespace@ == "dish"@ && r@[20].subsystem@ == "obstruction"@ && r@[20].name@
            == "wedge_abs_fraction_obstructed"@ && r@[20].kind == MetricKind::GaugeVector
            && r@[20].label_names@.len() == 1 && r@[20].label_names@[0]@ == "wedge"@,
        r@[0].help@
            == "Device information. Exposing `software_version` and `country_code` as additional labels."@,
        r@[1].help@ == "Dish uptime in seconds."@,
        r@[2].help@ == "Dish state. 0: Unknown, 1: Connected, 2: Searching, 3: Booting."@,
        r@[3].help@ == "Alert: Motors stuck."@,
        r@[4].help@ == "Alert: Thermal throttle."@,
        r@[5].help@ == "Alert: Thermal shutdown."@,
        r@[6].help@ == "Alert: Mast not near vertical."@,
        r@[7].help@ == "Alert: Unexpected location."@,
        r@[8].help@ == "Alert: Slow ethernet speeds."@,
        r@[9].help@ == "Signal-to-noise ratio."@,
        r@[10].help@ == "Seconds to first non-empty slot."@,
        r@[11].help@ == "Pop ping drop rate."@,
        r@[12].help@ == "Downlink throughput in Bps."@,
        r@[13].help@ == "Uplink throughput in Bps."@,
        r@[14].help@ == "Pop ping latency in ms."@,
        r@[15].help@ == "Obstruction: Currently obstructed."@,
        r@[16].help@ == "Obstruction: Obstructed fraction. Sum of obstructed fractions."@,
        r@[17].help@ == "Obstruction: Obstructed seconds in the last 24 hours."@,
        r@[18].help@ == "Obstruction: Valid seconds."@,
        r@[19].help@
            == "Obstruction: Wedge fraction obstructed. Measure of obstruction in twelve 30 degree wedges around the dish."@,
        r@[20].help@
            == "Obstruction: Wedge fraction obstruction average. Measure of average obstruction in twelve 30 degree wedges around the dish."@,
{
    let mut r: Vec<MetricSpec> = Vec::new();
    let mut device_info_labels: Vec<&'static str> = Vec::new();
    device_info_labels.push("software_version");
    device_info_labels.push("country_code");
    r.push(MetricSpec {
        namespace: "dish",
        subsystem: "",
        name: "device_info",
        help: "Device information. Exposing `software_version` and `country_code` as additional labels.",
        kind: MetricKind::GaugeVector,
        label_names: device_info_labels,
    });
    r.push(MetricSpec {
        namespace: "dish",
        subsystem: "",
        name: "uptime_s",
        help: "Dish uptime in seconds.",
        kind: MetricKind::Counter,
        label_names: Vec::new(),
    });
    r.push(MetricSpec {
        namespace: "dish",
        subsystem: "",
        name: "state",
        help: "Dish state. 0: Unknown, 1: Connected, 2: Searching, 3: Booting.",
        kind: MetricKind::Gauge,
        label_names: Vec::new(),
    });
    r.push(MetricSpec {
        namespace: "dish",
        subsystem: "alert",
        name: "motors_stuck",
        help: "Alert: Motors stuck.",
        kind: MetricKind::Gauge,
        label_names: Vec::new(),
    });
    r.push(MetricSpec {
        namespace: "dish",
        subsystem: "alert",
        name: "thermal_throttle",
        help: "Alert: Thermal throttle.",
        kind: MetricKind::Gauge,
        label_names: Vec::new(),
    });
    r.push(MetricSpec {
        namespace: "dish",
        subsystem: "alert",
        name: "thermal_shutdown",
        help: "Alert: Thermal shutdown.",
        kind: MetricKind::Gauge,
        label_names: Vec::new(),
    });
    r.push(MetricSpec {
        namespace: "dish",
        subsystem: "alert",
        name: "mast_not_near_vertical",
        help: "Alert: Mast not near vertical.",
        kind: MetricKind::Gauge,
        label_names: Vec::new(),
    });
    r.push(MetricSpec {
        namespace: "dish",
        subsystem: "alert",
        name: "unexpected_location",
        help: "Alert: Unexpected location.",
        kind: MetricKind::Gauge,
        label_names: Vec::new(),
    });
    r.push(MetricSpec {
        namespace: "dish",
        subsystem: "alert",
        name: "slow_ethernet_speeds",
        help: "Alert: Slow ethernet speeds.",
        kind: MetricKind::Gauge,
        label_names: Vec::new(),
    });
    r.push(MetricSpec {
        namespace: "dish",
        subsystem: "",
        name: "snr",
        help: "Signal-to-noise ratio.",
        kind: MetricKind::Gauge,
        label_names: Vec::new(),
    });
    r.push(MetricSpec {
        namespace: "dish",
        subsystem: "",
        name: "seconds_to_first_nonempty_slot",
        help: "Seconds to first non-empty slot.",
        kind: MetricKind::Gauge,
        label_names: Vec::new(),
    });
    r.push(MetricSpec {
        namespace: "dish",
        subsystem: "",
        name: "pop_ping_drop_rate",
        help: "Pop ping drop rate.",
        kind: MetricKind::Gauge,
        label_names: Vec::new(),
    });
    r.push(MetricSpec {
        namespace: "dish",
        subsystem: "",
        name: "downlink_throughput_bps",
        help: "Downlink throughput in Bps.",
        kind: MetricKind::Gauge,
        label_names: Vec::new(),
    });
    r.push(MetricSpec {
        namespace: "dish",
        subsystem: "",
        name: "uplink_throughput_bps",
        help: "Uplink throughput in Bps.",
        kind: MetricKind::Gauge,
        label_names: Vec::new(),
    });
    r.push(MetricSpec {
        namespace: "dish",
        subsystem: "",
        name: "pop_ping_latency_ms",
        help: "Pop ping latency in ms.",
        kind: MetricKind::Gauge,
        label_names: Vec::new(),
    });
    r.push(MetricSpec {
        namespace: "dish",
        subsystem: "obstruction",
        name: "currently_obstructed",
        help: "Obstruction: Currently obstructed.",
        kind: MetricKind::Gauge,
        label_names: Vec::new(),
    });
    r.push(MetricSpec {
        namespace: "dish",
        subsystem: "obstruction",
        name: "fraction_obstructed",
        help: "Obstruction: Obstructed fraction. Sum of obstructed fractions.",
        kind: MetricKind::Gauge,
        label_names: Vec::new(),
    });
    r.push(MetricSpec {
        namespace: "dish",
        subsystem: "obstruction",
        name: "last_24h_obstructed_s",
        help: "Obstruction: Obstructed seconds in the last 24 hours.",
        kind: MetricKind::Counter,
        label_names: Vec::new(),
    });
    r.push(MetricSpec {
        namespace: "dish",
        subsystem: "obstruction",
        name: "valid_s",
        help: "Obstruction: Valid seconds.",
        kind: MetricKind::Counter,
        label_names: Vec::new(),
    });
    let mut wedge_labels: Vec<&'static str> = Vec::new();
    wedge_labels.push("wedge");
    r.push(MetricSpec {
        namespace: "dish",
        subsystem: "obstruction",
        name: "wedge_fraction_obstructed",
        help: "Obstruction: Wedge fraction obstructed. Measure of obstruction in twelve 30 degree wedges around the dish.",
        kind: MetricKind::GaugeVector,
        label_names: wedge_labels,
    });
    let mut abs_wedge_labels: Vec<&'static str> = Vec::new();
    abs_wedge_labels.push("wedge");
    r.push(MetricSpec {
        namespace: "dish",
        subsystem: "obstruction",
        name: "wedge_abs_fraction_obstructed",
        help: "Obstruction: Wedge fraction obstruction average. Measure of average obstruction in twelve 30 degree wedges around the dish.",
        kind: MetricKind::GaugeVector,
        label_names: abs_wedge_labels,
    });
    r
}

/// The registry-wide identity label set, from the one-time identity
/// query: an entry per reported field, keyed "id" and
/// "hardware_version", in that order.
pub fn identity_labels(id: Option<String>, hardware_version: Option<String>) -> (r: Vec<
    (String, String),
>)
    ensures
        (match (id, hardware_version) {
            (None, None) => r@.len() == 0,
            (Some(v), None) => r@.len() == 1 && r@[0].0@ == "id"@ && r@[0].1 == v,
            (None, Some(h)) => r@.len() == 1 && r@[0].0@ == "hardware_version"@ && r@[0].1 == h,
            (Some(v), Some(h)) => r@.len() == 2 && r@[0].0@ == "id"@ && r@[0].1 == v
                && r@[1].0@ == "hardware_version"@ && r@[1].1 == h,
        }),
{
    let mut r: Vec<(String, String)> = Vec::new();
    if let Some(v) = id {
        r.push((String::from_str("id"), v));
    }
    if let Some(h) = hardware_version {
        r.push((String::from_str("hardware_version"), h));
    }
    r
}

} // verus!

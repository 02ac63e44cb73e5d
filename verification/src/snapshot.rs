//! The device status snapshot: a tree of independently optional fields.
//!
//! One snapshot is received per scrape and consumed by one
//! reconciliation pass. Every field is present-or-absent on its own;
//! absence means "the device did not report this field this cycle" and
//! is never folded into zero. The bridge code builds a snapshot from the
//! decoded wire response, converting each reading to its bit-pattern
//! sample and each nested block field by field.

use vstd::prelude::*;

use crate::sample::Sample;

verus! {

/// The identity block of a status snapshot. The reconciler reads the two
/// labels that may change while the process runs; the boot-time identity
/// labels (device id, hardware version) come from a separate one-time
/// query and never pass through here.
pub struct DeviceInfo {
    pub software_version: Option<String>,
    pub country_code: Option<String>,
}

/// The device run-state block.
pub struct DeviceState {
    pub uptime_s: Option<Sample>,
}

/// The boolean alert flags, each independently optional.
pub struct Alerts {
    pub motors_stuck: Option<bool>,
    pub thermal_throttle: Option<bool>,
    pub thermal_shutdown: Option<bool>,
    pub mast_not_near_vertical: Option<bool>,
    pub unexpected_location: Option<bool>,
    pub slow_ethernet_speeds: Option<bool>,
}

/// The obstruction statistics block. The wedge vectors report one value
/// per 30-degree wedge, lowest index first; the device may report fewer
/// than twelve, and a vector it did not report at all arrives empty.
pub struct ObstructionStats {
    pub currently_obstructed: Option<bool>,
    pub fraction_obstructed: Option<Sample>,
    pub last_24h_obstructed_s: Option<Sample>,
    pub valid_s: Option<Sample>,
    pub wedge_fraction_obstructed: Vec<Sample>,
    pub wedge_abs_fraction_obstructed: Vec<Sample>,
}

/// One device status snapshot. The connectivity state enum arrives as
/// the sample of its numeric value, like every other scalar gauge.
pub struct DishStatus {
    pub device_info: Option<DeviceInfo>,
    pub device_state: Option<DeviceState>,
    pub state: Option<Sample>,
    pub alerts: Option<Alerts>,
    pub snr: Option<Sample>,
    pub seconds_to_first_nonempty_slot: Option<Sample>,
    pub pop_ping_drop_rate: Option<Sample>,
    pub downlink_throughput_bps: Option<Sample>,
    pub uplink_throughput_bps: Option<Sample>,
    pub pop_ping_latency_ms: Option<Sample>,
    pub obstruction_stats: Option<ObstructionStats>,
}

impl DishStatus {
    /// The uptime reading this cycle, absent when the run-state block or
    /// the field itself is absent.
    pub open spec fn uptime_obs(self) -> Option<Sample> {
        match self.device_state {
            Some(ds) => ds.uptime_s,
            None => None,
        }
    }

    /// The motors-stuck flag this cycle.
    pub open spec fn motors_stuck_obs(self) -> Option<bool> {
        match self.alerts {
            Some(a) => a.motors_stuck,
            None => None,
        }
    }

    /// The thermal-throttle flag this cycle.
    pub open spec fn thermal_throttle_obs(self) -> Option<bool> {
        match self.alerts {
            Some(a) => a.thermal_throttle,
            None => None,
        }
    }

    /// The thermal-shutdown flag this cycle.
    pub open spec fn thermal_shutdown_obs(self) -> Option<bool> {
        match self.alerts {
            Some(a) => a.thermal_shutdown,
            None => None,
        }
    }

    /// The mast-not-near-vertical flag this cycle.
    pub open spec fn mast_not_near_vertical_obs(self) -> Option<bool> {
        match self.alerts {
            Some(a) => a.mast_not_near_vertical,
            None => None,
        }
    }

    /// The unexpected-location flag this cycle.
    pub open spec fn unexpected_location_obs(self) -> Option<bool> {
        match self.alerts {
            Some(a) => a.unexpected_location,
            None => None,
        }
    }

    /// The slow-ethernet-speeds flag this cycle.
    pub open spec fn slow_ethernet_speeds_obs(self) -> Option<bool> {
        match self.alerts {
            Some(a) => a.slow_ethernet_speeds,
            None => None,
        }
    }

    /// The currently-obstructed flag this cycle.
    pub open spec fn currently_obstructed_obs(self) -> Option<bool> {
        match self.obstruction_stats {
            Some(o) => o.currently_obstructed,
            None => None,
        }
    }

    /// The obstructed-fraction reading this cycle.
    pub open spec fn fraction_obstructed_obs(self) -> Option<Sample> {
        match self.obstruction_stats {
            Some(o) => o.fraction_obstructed,
            None => None,
        }
    }

    /// The 24-hour obstructed-seconds reading this cycle.
    pub open spec fn last_24h_obstructed_s_obs(self) -> Option<Sample> {
        match self.obstruction_stats {
            Some(o) => o.last_24h_obstructed_s,
            None => None,
        }
    }

    /// The valid-seconds reading this cycle.
    pub open spec fn valid_s_obs(self) -> Option<Sample> {
        match self.obstruction_stats {
            Some(o) => o.valid_s,
            None => None,
        }
    }

    /// The per-wedge obstructed fractions this cycle; empty when the
    /// obstruction block is absent, so that reconciling changes nothing.
    pub open spec fn wedge_obs(self) -> Seq<Sample> {
        match self.obstruction_stats {
            Some(o) => o.wedge_fraction_obstructed@,
            None => Seq::empty(),
        }
    }

    /// The per-wedge average obstructed fractions this cycle; empty when
    /// the obstruction block is absent.
    pub open spec fn wedge_abs_obs(self) -> Seq<Sample> {
        match self.obstruction_stats {
            Some(o) => o.wedge_abs_fraction_obstructed@,
            None => Seq::empty(),
        }
    }
}

} // verus!

//! The metric state and the snapshot reconciler.
//!
//! `Metrics` is the mutable value of every metric in the catalog: one
//! sample per scalar gauge, one `CounterState` per counter, twelve
//! samples per wedge vector, and the latest identity label pair. The
//! exposition layer owns one `Metrics` behind an exclusive lock, runs
//! `update` with each freshly fetched snapshot, and then reads the
//! fields out to serialize them.
//!
//! `update` walks the snapshot in one fixed order and dispatches each
//! present field to its per-field policy; absent fields leave their
//! metrics untouched, and an entirely absent status response changes
//! nothing at all and still succeeds. A snapshot that does not fit the
//! declared label sets is refused before anything is written, so a
//! refused pass never leaves the state half-updated.

use vstd::prelude::*;

use crate::counter::{counter_action, counter_after, CounterAction, CounterState};
use crate::error::Error;
use crate::sample::{Sample, SAMPLE_ZERO};
use crate::snapshot::DishStatus;
use crate::update::{
    flag_after, gauge_after, update_flag, update_gauge, update_vector, vector_after, WEDGE_COUNT,
};

verus! {

/// The latest identity label pair exposed on the device-info metric.
#[derive(Clone, Debug, PartialEq)]
pub struct DeviceInfoLabels {
    pub software_version: String,
    pub country_code: String,
}

/// What one reconciliation pass asks of the exposition layer's three
/// counter objects.
#[derive(Clone, Copy, Debug, PartialEq, Eq, Structural)]
pub struct CounterActions {
    pub uptime_s: CounterAction,
    pub obstruction_last_24h_obstructed_s: CounterAction,
    pub obstruction_valid_s: CounterAction,
}

/// The mutable value of every metric in the catalog.
#[derive(Clone, Debug, PartialEq)]
pub struct Metrics {
    pub device_info: Option<DeviceInfoLabels>,
    pub uptime_s: CounterState,
    pub state: Sample,
    pub alert_motors_stuck: Sample,
    pub alert_thermal_throttle: Sample,
    pub alert_thermal_shutdown: Sample,
    pub alert_mast_not_near_vertical: Sample,
    pub alert_unexpected_location: Sample,
    pub alert_slow_ethernet_speeds: Sample,
    pub snr: Sample,
    pub seconds_to_first_nonempty_slot: Sample,
    pub pop_ping_drop_rate: Sample,
    pub downlink_throughput_bps: Sample,
    pub uplink_throughput_bps: Sample,
    pub pop_ping_latency_ms: Sample,
    pub obstruction_currently_obstructed: Sample,
    pub obstruction_fraction_obstructed: Sample,
    pub obstruction_last_24h_obstructed_s: CounterState,
    pub obstruction_valid_s: CounterState,
    pub obstruction_wedge_fraction_obstructed: Vec<Sample>,
    pub obstruction_wedge_abs_fraction_obstructed: Vec<Sample>,
}

/// Whether a present snapshot fits the label sets the catalog declares:
/// a reported device-info block must carry both identity labels, and a
/// reported wedge vector must not exceed the twelve declared wedges.
pub open spec fn status_ok(s: DishStatus) -> bool {
    &&& (s.device_info matches Some(di) ==> di.software_version is Some
        && di.country_code is Some)
    &&& (s.obstruction_stats matches Some(o) ==> o.wedge_fraction_obstructed@.len()
        <= WEDGE_COUNT && o.wedge_abs_fraction_obstructed@.len() <= WEDGE_COUNT)
}

/// Builds a wedge vector with every wedge at zero.
fn zero_wedges() -> (r: Vec<Sample>)
    ensures
        r@.len() == WEDGE_COUNT,
        forall|i: int| 0 <= i < WEDGE_COUNT ==> r@[i] == SAMPLE_ZERO,
{
    let mut v: Vec<Sample> = Vec::new();
    let mut i: usize = 0;
    while i < WEDGE_COUNT
        invariant
            i <= WEDGE_COUNT,
            v@.len() == i,
            forall|j: int| 0 <= j < i ==> v@[j] == SAMPLE_ZERO,
        decreases WEDGE_COUNT - i,
    {
        v.push(SAMPLE_ZERO);
        i += 1;
    }
    v
}

impl Metrics {
    /// Every counter's invariant holds and both wedge vectors have their
    /// declared cardinality.
    pub open spec fn wf(self) -> bool {
        &&& self.uptime_s.wf()
        &&& self.obstruction_last_24h_obstructed_s.wf()
        &&& self.obstruction_valid_s.wf()
        &&& self.obstruction_wedge_fraction_obstructed@.len() == WEDGE_COUNT
        &&& self.obstruction_wedge_abs_fraction_obstructed@.len() == WEDGE_COUNT
    }

    /// The initial state: no identity labels seen, every value zero,
    /// every counter shadow zero.
    pub fn new() -> (m: Metrics)
        ensures
            m.wf(),
            m.device_info is None,
            m.uptime_s == (CounterState { exposed: SAMPLE_ZERO, last_raw: SAMPLE_ZERO }),
            m.state == SAMPLE_ZERO,
            m.alert_motors_stuck == SAMPLE_ZERO,
            m.alert_thermal_throttle == SAMPLE_ZERO,
            m.alert_thermal_shutdown == SAMPLE_ZERO,
            m.alert_mast_not_near_vertical == SAMPLE_ZERO,
            m.alert_unexpected_location == SAMPLE_ZERO,
            m.alert_slow_ethernet_speeds == SAMPLE_ZERO,
            m.snr == SAMPLE_ZERO,
            m.seconds_to_first_nonempty_slot == SAMPLE_ZERO,
            m.pop_ping_drop_rate == SAMPLE_ZERO,
            m.downlink_throughput_bps == SAMPLE_ZERO,
            m.uplink_throughput_bps == SAMPLE_ZERO,
            m.pop_ping_latency_ms == SAMPLE_ZERO,
            m.obstruction_currently_obstructed == SAMPLE_ZERO,
            m.obstruction_fraction_obstructed == SAMPLE_ZERO,
            m.obstruction_last_24h_obstructed_s == (CounterState {
                exposed: SAMPLE_ZERO,
                last_raw: SAMPLE_ZERO,
            }),
            m.obstruction_valid_s == (CounterState {
                exposed: SAMPLE_ZERO,
                last_raw: SAMPLE_ZERO,
            }),
            forall|i: int|
                0 <= i < WEDGE_COUNT ==> m.obstruction_wedge_fraction_obstructed@[i]
                    == SAMPLE_ZERO,
            forall|i: int|
                0 <= i < WEDGE_COUNT ==> m.obstruction_wedge_abs_fraction_obstructed@[i]
                    == SAMPLE_ZERO,
    {
        Metrics {
            device_info: None,
            uptime_s: CounterState::new(),
            state: SAMPLE_ZERO,
            alert_motors_stuck: SAMPLE_ZERO,
            alert_thermal_throttle: SAMPLE_ZERO,
            alert_thermal_shutdown: SAMPLE_ZERO,
            alert_mast_not_near_vertical: SAMPLE_ZERO,
            alert_unexpected_location: SAMPLE_ZERO,
            alert_slow_ethernet_speeds: SAMPLE_ZERO,
            snr: SAMPLE_ZERO,
            seconds_to_first_nonempty_slot: SAMPLE_ZERO,
            pop_ping_drop_rate: SAMPLE_ZERO,
            downlink_throughput_bps: SAMPLE_ZERO,
            uplink_throughput_bps: SAMPLE_ZERO,
            pop_ping_latency_ms: SAMPLE_ZERO,
            obstruction_currently_obstructed: SAMPLE_ZERO,
            obstruction_fraction_obstructed: SAMPLE_ZERO,
            obstruction_last_24h_obstructed_s: CounterState::new(),
            obstruction_valid_s: CounterState::new(),
            obstruction_wedge_fraction_obstructed: zero_wedges(),
            obstruction_wedge_abs_fraction_obstructed: zero_wedges(),
        }
    }

    /// Reconciles one fetched status response into the metric state.
    ///
    /// `None` means the response did not carry the expected status
    /// variant: nothing changed this cycle, which is a success, not an
    /// error. A present snapshot that does not fit the declared label
    /// sets is refused with nothing written. Otherwise every present
    /// field is applied under its policy and every absent field keeps
    /// its prior value; the returned actions tell the exposition layer
    /// how to move its three counter objects.
    pub fn update(&mut self, status: Option<DishStatus>) -> (r: Result<CounterActions, Error>)
        requires
            old(self).wf(),
        ensures
            final(self).wf(),
            status is None ==> r == Ok::<CounterActions, Error>(CounterActions {
                uptime_s: CounterAction::NoChange,
                obstruction_last_24h_obstructed_s: CounterAction::NoChange,
                obstruction_valid_s: CounterAction::NoChange,
            }) && *final(self) == *old(self),
            (match status {
                Some(s) => !status_ok(s) ==> r == Err::<CounterActions, Error>(
                    Error::LabelCardinality,
                ) && *final(self) == *old(self),
                None => true,
            }),
            (match status {
                Some(s) => status_ok(s) ==> {
                &&& r is Ok
                &&& (s.device_info matches Some(di) ==> di.software_version matches Some(sv)
                    && di.country_code matches Some(cc)
                    && final(self).device_info matches Some(l) && l.software_version@ == sv@
                    && l.country_code@ == cc@)
                &&& (s.device_info is None ==> final(self).device_info == old(self).device_info)
                &&& final(self).uptime_s == counter_after(old(self).uptime_s, s.uptime_obs())
                &&& final(self).state == gauge_after(old(self).state, s.state)
                &&& final(self).alert_motors_stuck == flag_after(
                    old(self).alert_motors_stuck,
                    s.motors_stuck_obs(),
                )
                &&& final(self).alert_thermal_throttle == flag_after(
                    old(self).alert_thermal_throttle,
                    s.thermal_throttle_obs(),
                )
                &&& final(self).alert_thermal_shutdown == flag_after(
                    old(self).alert_thermal_shutdown,
                    s.thermal_shutdown_obs(),
                )
                &&& final(self).alert_mast_not_near_vertical == flag_after(
                    old(self).alert_mast_not_near_vertical,
                    s.mast_not_near_vertical_obs(),
                )
                &&& final(self).alert_unexpected_location == flag_after(
                    old(self).alert_unexpected_location,
                    s.unexpected_location_obs(),
                )
                &&& final(self).alert_slow_ethernet_speeds == flag_after(
                    old(self).alert_slow_ethernet_speeds,
                    s.slow_ethernet_speeds_obs(),
                )
                &&& final(self).snr == gauge_after(old(self).snr, s.snr)
                &&& final(self).seconds_to_first_nonempty_slot == gauge_after(
                    old(self).seconds_to_first_nonempty_slot,
                    s.seconds_to_first_nonempty_slot,
                )
                &&& final(self).pop_ping_drop_rate == gauge_after(
                    old(self).pop_ping_drop_rate,
                    s.pop_ping_drop_rate,
                )
                &&& final(self).downlink_throughput_bps == gauge_after(
                    old(self).downlink_throughput_bps,
                    s.downlink_throughput_bps,
                )
                &&& final(self).uplink_throughput_bps == gauge_after(
                    old(self).uplink_throughput_bps,
                    s.uplink_throughput_bps,
                )
                &&& final(self).pop_ping_latency_ms == gauge_after(
                    old(self).pop_ping_latency_ms,
                    s.pop_ping_latency_ms,
                )
                &&& final(self).obstruction_currently_obstructed == flag_after(
                    old(self).obstruction_currently_obstructed,
                    s.currently_obstructed_obs(),
                )
                &&& final(self).obstruction_fraction_obstructed == gauge_after(
                    old(self).obstruction_fraction_obstructed,
                    s.fraction_obstructed_obs(),
                )
                &&& final(self).obstruction_last_24h_obstructed_s == counter_after(
                    old(self).obstruction_last_24h_obstructed_s,
                    s.last_24h_obstructed_s_obs(),
                )
                &&& final(self).obstruction_valid_s == counter_after(
                    old(self).obstruction_valid_s,
                    s.valid_s_obs(),
                )
                &&& final(self).obstruction_wedge_fraction_obstructed@ == vector_after(
                    old(self).obstruction_wedge_fraction_obstructed@,
                    s.wedge_obs(),
                )
                &&& final(self).obstruction_wedge_abs_fraction_obstructed@ == vector_after(
                    old(self).obstruction_wedge_abs_fraction_obstructed@,
                    s.wedge_abs_obs(),
                )
                &&& (r matches Ok(acts) ==> acts.uptime_s == counter_action(
                    old(self).uptime_s,
                    s.uptime_obs(),
                ) && acts.obstruction_last_24h_obstructed_s == counter_action(
                    old(self).obstruction_last_24h_obstructed_s,
                    s.last_24h_obstructed_s_obs(),
                ) && acts.obstruction_valid_s == counter_action(
                    old(self).obstruction_valid_s,
                    s.valid_s_obs(),
                ))
                },
                None => true,
            }),
    {
        let s = match status {
            None => {
                return Ok(CounterActions {
                    uptime_s: CounterAction::NoChange,
                    obstruction_last_24h_obstructed_s: CounterAction::NoChange,
                    obstruction_valid_s: CounterAction::NoChange,
                });
            },
            Some(s) => s,
        };
        // Refuse a snapshot that does not fit the declared label sets
        // before anything is written.
        if let Some(di) = &s.device_info {
            if di.software_version.is_none() || di.country_code.is_none() {
                return Err(Error::LabelCardinality);
            }
        }
        if let Some(o) = &s.obstruction_stats {
            if o.wedge_fraction_obstructed.len() > WEDGE_COUNT
                || o.wedge_abs_fraction_obstructed.len() > WEDGE_COUNT {
                return Err(Error::LabelCardinality);
            }
        }
        // Apply the snapshot, in its fixed traversal order.
        if let Some(di) = s.device_info {
            if let (Some(sv), Some(cc)) = (di.software_version, di.country_code) {
                self.device_info = Some(DeviceInfoLabels {
                    software_version: sv,
                    country_code: cc,
                });
            }
        }
        let uptime_action = match &s.device_state {
            Some(ds) => match ds.uptime_s {
                Some(v) => self.uptime_s.reconcile(v),
                None => CounterAction::NoChange,
            },
            None => CounterAction::NoChange,
        };
        update_gauge(&mut self.state, s.state);
        if let Some(a) = &s.alerts {
            update_flag(&mut self.alert_motors_stuck, a.motors_stuck);
            update_flag(&mut self.alert_thermal_throttle, a.thermal_throttle);
            update_flag(&mut self.alert_thermal_shutdown, a.thermal_shutdown);
            update_flag(&mut self.alert_mast_not_near_vertical, a.mast_not_near_vertical);
            update_flag(&mut self.alert_unexpected_location, a.unexpected_location);
            update_flag(&mut self.alert_slow_ethernet_speeds, a.slow_ethernet_speeds);
        }
        update_gauge(&mut self.snr, s.snr);
        update_gauge(&mut self.seconds_to_first_nonempty_slot, s.seconds_to_first_nonempty_slot);
        update_gauge(&mut self.pop_ping_drop_rate, s.pop_ping_drop_rate);
        update_gauge(&mut self.downlink_throughput_bps, s.downlink_throughput_bps);
        update_gauge(&mut self.uplink_throughput_bps, s.uplink_throughput_bps);
        update_gauge(&mut self.pop_ping_latency_ms, s.pop_ping_latency_ms);
        let mut last_24h_action = CounterAction::NoChange;
        let mut valid_action = CounterAction::NoChange;
        if let Some(o) = &s.obstruction_stats {
            update_flag(&mut self.obstruction_currently_obstructed, o.currently_obstructed);
            update_gauge(&mut self.obstruction_fraction_obstructed, o.fraction_obstructed);
            if let Some(v) = o.last_24h_obstructed_s {
                last_24h_action = self.obstruction_last_24h_obstructed_s.reconcile(v);
            }
            if let Some(v) = o.valid_s {
                valid_action = self.obstruction_valid_s.reconcile(v);
            }
            let _ = update_vector(
                &mut self.obstruction_wedge_fraction_obstructed,
                &o.wedge_fraction_obstructed,
            );
            let _ = update_vector(
                &mut self.obstruction_wedge_abs_fraction_obstructed,
                &o.wedge_abs_fraction_obstructed,
            );
        }
        Ok(CounterActions {
            uptime_s: uptime_action,
            obstruction_last_24h_obstructed_s: last_24h_action,
            obstruction_valid_s: valid_action,
        })
    }
}

} // verus!

use vstd::prelude::*;

verus! {

// Fixed-point convention: every field the wire carries as a decimal glucose
// quantity (values and thresholds) is held in tenths of its unit, so the
// strict threshold comparisons of the normalizer are exact.

/// One telemetry sample as delivered by the service.
#[derive(Debug, Clone)]
pub struct GlucoseItem {
    pub factory_timestamp: String,
    pub timestamp: String,
    pub item_type: i32,
    pub value_in_mg_per_dl: i64,
    pub trend_arrow: Option<i32>,
    pub measurement_color: i32,
    pub glucose_units: i32,
    pub value: i64,
    pub is_high: bool,
    pub is_low: bool,
}

#[derive(Debug, Clone)]
pub struct Sensor {
    pub device_id: String,
    pub sn: String,
    pub a: i32,
    pub w: i32,
    pub pt: i32,
}

#[derive(Debug, Clone, Copy, PartialEq, Eq, Structural)]
pub struct FixedLowAlarmValues {
    pub mgdl: i64,
    pub mmoll: i64,
}

#[derive(Debug, Clone)]
pub struct Device {
    pub did: String,
    pub dtid: i32,
    pub v: String,
    pub ll: i64,
    pub hl: i64,
    pub u: i32,
    pub fixed_low_alarm_values: FixedLowAlarmValues,
    pub alarms: bool,
}

#[derive(Debug, Clone, Copy, PartialEq, Eq, Structural)]
pub struct H {
    pub on: bool,
    pub th: i64,
    pub thmm: i64,
    pub d: i32,
    pub f: i32,
}

#[derive(Debug, Clone, Copy, PartialEq, Eq, Structural)]
pub struct F {
    pub th: i64,
    pub thmm: i64,
    pub d: i32,
    pub tl: i64,
    pub tlmm: i64,
    pub on: Option<bool>,
}

#[derive(Debug, Clone, Copy, PartialEq, Eq, Structural)]
pub struct Nd {
    pub i: i32,
    pub r: i32,
    pub l: i32,
}

#[derive(Debug, Clone, Copy, PartialEq, Eq, Structural)]
pub struct Std {}

#[derive(Debug, Clone)]
pub struct AlarmRules {
    pub c: bool,
    pub h: H,
    pub f: F,
    pub l: F,
    pub nd: Nd,
    pub p: i32,
    pub r: i32,
    pub standard: Std,
}

/// A monitored patient relationship, with the per-patient thresholds the
/// normalizer evaluates readings against.
#[derive(Debug, Clone)]
pub struct Connection {
    pub id: String,
    pub patient_id: String,
    pub country: String,
    pub status: i32,
    pub first_name: String,
    pub last_name: String,
    pub target_low: i64,
    pub target_high: i64,
    pub uom: i32,
    pub sensor: Sensor,
    pub alarm_rules: AlarmRules,
    pub glucose_measurement: GlucoseItem,
    pub glucose_item: GlucoseItem,
    pub patient_device: Device,
    pub created: i64,
}

impl Connection {
    /// Accepted connection data keeps its thresholds ordered.
    pub open spec fn wf(self) -> bool {
        self.target_low <= self.target_high
    }
}

#[derive(Debug, Clone)]
pub struct ActiveSensor {
    pub sensor: Sensor,
    pub device: Device,
}

/// Payload of the graph data endpoint: the patient connection and the
/// time-series items, in the order the service delivered them.
#[derive(Debug, Clone)]
pub struct Data {
    pub connection: Connection,
    pub active_sensors: Vec<ActiveSensor>,
    pub graph_data: Vec<GlucoseItem>,
}

#[derive(Debug, Clone)]
pub struct Ticket {
    pub token: String,
    pub expires: i64,
    pub duration: i64,
}

/// Response from the graph data endpoint.
#[derive(Debug, Clone)]
pub struct GraphData {
    pub status: i32,
    pub data: Data,
    pub ticket: Ticket,
}

/// One `fetchGraph` call: how many authorization rejections the remote
/// service has answered with in this call.
#[derive(Debug, Clone, Copy, PartialEq, Eq, Structural)]
pub struct FetchAttempt {
    pub rejections: u8,
}

/// Whether an authorization rejection in this state is answered by
/// invalidating the session and retrying: only the first one is.
pub open spec fn spec_retry_on_rejection(a: FetchAttempt) -> bool {
    a.rejections == 0
}

/// The fetch state after one authorization rejection.
pub open spec fn spec_after_rejection(a: FetchAttempt) -> FetchAttempt {
    if a.rejections < 2 {
        FetchAttempt { rejections: (a.rejections + 1) as u8 }
    } else {
        a
    }
}

impl FetchAttempt {
    /// Begin a `fetchGraph` call: no rejection seen yet.
    pub fn begin() -> (r: FetchAttempt)
        ensures
            r.rejections == 0,
    {
        FetchAttempt { rejections: 0 }
    }

    /// The remote service rejected the token. Returns whether the caller
    /// must invalidate the held session and retry the fetch exactly once
    /// with a freshly authenticated session; a second rejection is fatal
    /// (`AuthenticationRejected`), with no further automatic retry.
    pub fn on_auth_rejected(&mut self) -> (r: bool)
        ensures
            r == spec_retry_on_rejection(*old(self)),
            *final(self) == spec_after_rejection(*old(self)),
    {
        if self.rejections == 0 {
            self.rejections = 1;
            true
        } else {
            if self.rejections == 1 {
                self.rejections = 2;
            }
            false
        }
    }
}

/// One authorization rejection followed by re-authentication is retried;
/// a second consecutive rejection is fatal, and nothing after it ever
/// retries again — there is no third attempt.
pub proof fn lemma_fetch_retries_once(a0: FetchAttempt)
    requires
        a0.rejections == 0,
    ensures
        spec_retry_on_rejection(a0),
        !spec_retry_on_rejection(spec_after_rejection(a0)),
        !spec_retry_on_rejection(spec_after_rejection(spec_after_rejection(a0))),
{
}

} // verus!

//! The metrics the bridge publishes for Prometheus. Each recording function
//! returns the metric updates to apply; the exporter applies them.
use vstd::prelude::*;

verus! {

/// Kind of a metric.
#[derive(Debug, Clone, Copy, PartialEq, Eq, Structural)]
pub enum MetricKind {
    /// A count that only grows.
    Counter,
    /// A value that is set.
    Gauge,
}

/// The value a metric update brings.
#[derive(Debug, Clone, Copy, PartialEq, Eq, Structural)]
pub enum MetricValue {
    /// Add this much to a counter.
    Increment(u64),
    /// Set a gauge to this whole number.
    Number(u64),
    /// Set a gauge to a number of seconds, given in whole seconds and the
    /// nanoseconds beyond them.
    Seconds { secs: u64, nanos: u32 },
}

/// One update of one metric.
#[derive(Debug)]
pub struct MetricUpdate {
    pub kind: MetricKind,
    pub name: &'static str,
    /// The metric's label (key and value), if it has one.
    pub label: Option<(&'static str, String)>,
    pub value: MetricValue,
}

/// A metric update as plain values.
pub struct MetricUpdateView {
    pub kind: MetricKind,
    pub name: Seq<char>,
    pub label: Option<(Seq<char>, Seq<char>)>,
    pub value: MetricValue,
}

impl View for MetricUpdate {
    type V = MetricUpdateView;

    open spec fn view(&self) -> MetricUpdateView {
        MetricUpdateView {
            kind: self.kind,
            name: self.name@,
            label: match self.label {
                Some((k, v)) => Some((k@, v@)),
                None => None,
            },
            value: self.value,
        }
    }
}

/// A counter named `name` without label, increased by one.
pub open spec fn count_one(name: Seq<char>) -> MetricUpdateView {
    MetricUpdateView { kind: MetricKind::Counter, name, label: None, value: MetricValue::Increment(1) }
}

/// A counter named `name` labelled with the device type, increased by one.
pub open spec fn count_one_for_type(name: Seq<char>, device_type: Seq<char>) -> MetricUpdateView {
    MetricUpdateView {
        kind: MetricKind::Counter,
        name,
        label: Some(("type"@, device_type)),
        value: MetricValue::Increment(1),
    }
}

/// A gauge named `name` without label, set to 1 or 0.
pub open spec fn flag(name: Seq<char>, on: bool) -> MetricUpdateView {
    MetricUpdateView {
        kind: MetricKind::Gauge,
        name,
        label: None,
        value: MetricValue::Number(if on { 1 } else { 0 }),
    }
}

fn counter(name: &'static str) -> (u: MetricUpdate)
    ensures
        u@ == count_one(name@),
{
    MetricUpdate { kind: MetricKind::Counter, name, label: None, value: MetricValue::Increment(1) }
}

fn typed_counter(name: &'static str, device_type: &str) -> (u: MetricUpdate)
    ensures
        u@ == count_one_for_type(name@, device_type@),
{
    proof { reveal_strlit("type"); }
    MetricUpdate {
        kind: MetricKind::Counter,
        name,
        label: Some(("type", String::from_str(device_type))),
        value: MetricValue::Increment(1),
    }
}

fn flag_gauge(name: &'static str, on: bool) -> (u: MetricUpdate)
    ensures
        u@ == flag(name@, on),
{
    MetricUpdate {
        kind: MetricKind::Gauge,
        name,
        label: None,
        value: MetricValue::Number(if on { 1 } else { 0 }),
    }
}

/// Recording functions of the bridge's metrics.
pub struct Metrics;

impl Metrics {
    /// The bridge has been up `secs` seconds and `nanos` nanoseconds.
    pub fn set_uptime(secs: u64, nanos: u32) -> (u: MetricUpdate)
        ensures
            u@ == (MetricUpdateView {
                kind: MetricKind::Gauge,
                name: "comelit_bridge_uptime_seconds"@,
                label: None,
                value: MetricValue::Seconds { secs, nanos },
            }),
    {
        MetricUpdate {
            kind: MetricKind::Gauge,
            name: "comelit_bridge_uptime_seconds",
            label: None,
            value: MetricValue::Seconds { secs, nanos },
        }
    }

    /// The bridge runs version `version` (the gauge is always 1, the
    /// version is its label).
    pub fn set_bridge_info(version: &str) -> (u: MetricUpdate)
        ensures
            u@ == (MetricUpdateView {
                kind: MetricKind::Gauge,
                name: "comelit_bridge_info"@,
                label: Some(("version"@, version@)),
                value: MetricValue::Number(1),
            }),
    {
        MetricUpdate {
            kind: MetricKind::Gauge,
            name: "comelit_bridge_info",
            label: Some(("version", String::from_str(version))),
            value: MetricValue::Number(1),
        }
    }

    /// Whether the HomeKit bridge is paired.
    pub fn set_paired(paired: bool) -> (u: MetricUpdate)
        ensures
            u@ == flag("comelit_bridge_paired"@, paired),
    {
        flag_gauge("comelit_bridge_paired", paired)
    }

    /// Whether the bridge is connected to the hub.
    pub fn set_connected(connected: bool) -> (u: MetricUpdate)
        ensures
            u@ == flag("comelit_connection_status"@, connected),
    {
        flag_gauge("comelit_connection_status", connected)
    }

    /// One more reconnection attempt.
    pub fn inc_reconnects() -> (u: MetricUpdate)
        ensures
            u@ == count_one("comelit_connection_reconnects_total"@),
    {
        counter("comelit_connection_reconnects_total")
    }

    /// `count` devices of kind `device_type` are registered.
    pub fn set_device_count(device_type: &str, count: usize) -> (u: MetricUpdate)
        ensures
            u@ == (MetricUpdateView {
                kind: MetricKind::Gauge,
                name: "comelit_devices_total"@,
                label: Some(("type"@, device_type@)),
                value: MetricValue::Number(count as u64),
            }),
    {
        proof { reveal_strlit("type"); }
        MetricUpdate {
            kind: MetricKind::Gauge,
            name: "comelit_devices_total",
            label: Some(("type", String::from_str(device_type))),
            value: MetricValue::Number(count as u64),
        }
    }

    /// One more status update for a device of kind `device_type`.
    pub fn inc_device_updates(device_type: &str) -> (u: MetricUpdate)
        ensures
            u@ == count_one_for_type("comelit_device_updates_total"@, device_type@),
    {
        typed_counter("comelit_device_updates_total", device_type)
    }

    /// One more failed status update for a device of kind `device_type`.
    pub fn inc_device_update_errors(device_type: &str) -> (u: MetricUpdate)
        ensures
            u@ == count_one_for_type("comelit_device_update_errors_total"@, device_type@),
    {
        typed_counter("comelit_device_update_errors_total", device_type)
    }

    /// A ping at Unix time `now_secs` + `now_nanos`: every ping is counted;
    /// a successful one is counted as such and its time kept, a failed one
    /// is counted as failed.
    pub fn record_ping(success: bool, now_secs: u64, now_nanos: u32) -> (v: Vec<MetricUpdate>)
        ensures
            v@.map_values(|u: MetricUpdate| u@) == if success {
                seq![
                    count_one("comelit_ping_total"@),
                    count_one("comelit_ping_success_total"@),
                    MetricUpdateView {
                        kind: MetricKind::Gauge,
                        name: "comelit_ping_last_success_timestamp"@,
                        label: None,
                        value: MetricValue::Seconds { secs: now_secs, nanos: now_nanos },
                    },
                ]
            } else {
                seq![count_one("comelit_ping_total"@), count_one("comelit_ping_failure_total"@)]
            },
    {
        let mut v: Vec<MetricUpdate> = Vec::new();
        v.push(counter("comelit_ping_total"));
        if success {
            v.push(counter("comelit_ping_success_total"));
            v.push(MetricUpdate {
                kind: MetricKind::Gauge,
                name: "comelit_ping_last_success_timestamp",
                label: None,
                value: MetricValue::Seconds { secs: now_secs, nanos: now_nanos },
            });
        } else {
            v.push(counter("comelit_ping_failure_total"));
        }
        proof {
            let views = v@.map_values(|u: MetricUpdate| u@);
            if success {
                assert(views =~= seq![
                    count_one("comelit_ping_total"@),
                    count_one("comelit_ping_success_total"@),
                    MetricUpdateView {
                        kind: MetricKind::Gauge,
                        name: "comelit_ping_last_success_timestamp"@,
                        label: None,
                        value: MetricValue::Seconds { secs: now_secs, nanos: now_nanos },
                    },
                ]);
            } else {
                assert(views =~= seq![count_one("comelit_ping_total"@), count_one("comelit_ping_failure_total"@)]);
            }
        }
        v
    }

    /// One more request from HomeKit.
    pub fn inc_hap_requests() -> (u: MetricUpdate)
        ensures
            u@ == count_one("comelit_hap_requests_total"@),
    {
        counter("comelit_hap_requests_total")
    }
}

/// The description of a metric, registered with the exporter.
#[derive(Debug, Clone, Copy)]
pub struct MetricDescription {
    pub kind: MetricKind,
    pub name: &'static str,
    pub description: &'static str,
}

/// Kind, name and description of every metric the bridge publishes.
pub open spec fn metric_description_seq() -> Seq<(MetricKind, Seq<char>, Seq<char>)> {
    seq![
        (MetricKind::Gauge, "comelit_bridge_info"@, "Information about the Comelit bridge (always 1, labels contain version info)"@),
        (MetricKind::Gauge, "comelit_bridge_uptime_seconds"@, "Time in seconds since the bridge started"@),
        (MetricKind::Gauge, "comelit_bridge_paired"@, "Whether the HomeKit bridge is paired (1) or not (0)"@),
        (MetricKind::Gauge, "comelit_connection_status"@, "MQTT connection status (1 = connected, 0 = disconnected)"@),
        (MetricKind::Counter, "comelit_connection_reconnects_total"@, "Total number of MQTT reconnection attempts"@),
        (MetricKind::Gauge, "comelit_devices_total"@, "Total number of devices by type"@),
        (MetricKind::Counter, "comelit_device_updates_total"@, "Total number of device status updates received"@),
        (MetricKind::Counter, "comelit_device_update_errors_total"@, "Total number of device update errors"@),
        (MetricKind::Counter, "comelit_ping_total"@, "Total number of ping attempts"@),
        (MetricKind::Counter, "comelit_ping_success_total"@, "Total number of successful pings"@),
        (MetricKind::Counter, "comelit_ping_failure_total"@, "Total number of failed pings"@),
        (MetricKind::Gauge, "comelit_ping_last_success_timestamp"@, "Unix timestamp of the last successful ping"@),
        (MetricKind::Counter, "comelit_hap_requests_total"@, "Total number of HomeKit requests received"@)
    ]
}

/// The descriptions of every metric the bridge publishes (see
/// [`metric_description_seq`]).
pub fn metric_descriptions() -> (r: Vec<MetricDescription>)
    ensures
        r@.map_values(|d: MetricDescription| (d.kind, d.name@, d.description@)) == metric_description_seq(),
{
    let mut r: Vec<MetricDescription> = Vec::new();
    r.push(MetricDescription { kind: MetricKind::Gauge, name: "comelit_bridge_info", description: "Information about the Comelit bridge (always 1, labels contain version info)" });
    r.push(MetricDescription { kind: MetricKind::Gauge, name: "comelit_bridge_uptime_seconds", description: "Time in seconds since the bridge started" });
    r.push(MetricDescription { kind: MetricKind::Gauge, name: "comelit_bridge_paired", description: "Whether the HomeKit bridge is paired (1) or not (0)" });
    r.push(MetricDescription { kind: MetricKind::Gauge, name: "comelit_connection_status", description: "MQTT connection status (1 = connected, 0 = disconnected)" });
    r.push(MetricDescription { kind: MetricKind::Counter, name: "comelit_connection_reconnects_total", description: "Total number of MQTT reconnection attempts" });
    r.push(MetricDescription { kind: MetricKind::Gauge, name: "comelit_devices_total", description: "Total number of devices by type" });
    r.push(MetricDescription { kind: MetricKind::Counter, name: "comelit_device_updates_total", description: "Total number of device status updates received" });
    r.push(MetricDescription { kind: MetricKind::Counter, name: "comelit_device_update_errors_total", description: "Total number of device update errors" });
    r.push(MetricDescription { kind: MetricKind::Counter, name: "comelit_ping_total", description: "Total number of ping attempts" });
    r.push(MetricDescription { kind: MetricKind::Counter, name: "comelit_ping_success_total", description: "Total number of successful pings" });
    r.push(MetricDescription { kind: MetricKind::Counter, name: "comelit_ping_failure_total", description: "Total number of failed pings" });
    r.push(MetricDescription { kind: MetricKind::Gauge, name: "comelit_ping_last_success_timestamp", description: "Unix timestamp of the last successful ping" });
    r.push(MetricDescription { kind: MetricKind::Counter, name: "comelit_hap_requests_total", description: "Total number of HomeKit requests received" });
    assert(r@.map_values(|d: MetricDescription| (d.kind, d.name@, d.description@)) =~= metric_description_seq());
    r
}

} // verus!

use comelit_hub::metrics::{metric_descriptions, MetricKind, MetricValue, Metrics};

#[test]
fn counters_and_gauges() {
    let u = Metrics::inc_reconnects();
    assert_eq!(u.kind, MetricKind::Counter);
    assert_eq!(u.name, "comelit_connection_reconnects_total");
    assert_eq!(u.value, MetricValue::Increment(1));
    assert!(u.label.is_none());
    let u = Metrics::set_paired(true);
    assert_eq!(u.kind, MetricKind::Gauge);
    assert_eq!(u.value, MetricValue::Number(1));
    let u = Metrics::set_connected(false);
    assert_eq!(u.name, "comelit_connection_status");
    assert_eq!(u.value, MetricValue::Number(0));
    assert_eq!(Metrics::inc_hap_requests().name, "comelit_hap_requests_total");
}

#[test]
fn labelled_metrics() {
    let u = Metrics::set_device_count("light", 4);
    assert_eq!(u.name, "comelit_devices_total");
    assert_eq!(u.label, Some(("type", "light".to_string())));
    assert_eq!(u.value, MetricValue::Number(4));
    let u = Metrics::inc_device_updates("door");
    assert_eq!(u.label, Some(("type", "door".to_string())));
    assert_eq!(u.value, MetricValue::Increment(1));
    let u = Metrics::inc_device_update_errors("thermostat");
    assert_eq!(u.name, "comelit_device_update_errors_total");
    let u = Metrics::set_bridge_info("0.1.0");
    assert_eq!(u.label, Some(("version", "0.1.0".to_string())));
    assert_eq!(u.value, MetricValue::Number(1));
}

#[test]
fn uptime_and_ping() {
    let u = Metrics::set_uptime(12, 500);
    assert_eq!(u.value, MetricValue::Seconds { secs: 12, nanos: 500 });
    let ok = Metrics::record_ping(true, 1_700_000_000, 5);
    let names: Vec<&str> = ok.iter().map(|u| u.name).collect();
    assert_eq!(names, vec!["comelit_ping_total", "comelit_ping_success_total", "comelit_ping_last_success_timestamp"]);
    assert_eq!(ok[2].value, MetricValue::Seconds { secs: 1_700_000_000, nanos: 5 });
    let failed = Metrics::record_ping(false, 0, 0);
    let names: Vec<&str> = failed.iter().map(|u| u.name).collect();
    assert_eq!(names, vec!["comelit_ping_total", "comelit_ping_failure_total"]);
}

#[test]
fn every_metric_is_described() {
    let d = metric_descriptions();
    assert_eq!(d.len(), 13);
    assert_eq!(d[0].name, "comelit_bridge_info");
    assert_eq!(d[12].name, "comelit_hap_requests_total");
    assert_eq!(d[12].kind, MetricKind::Counter);
}

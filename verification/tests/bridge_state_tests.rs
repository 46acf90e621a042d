use comelit_hub::bridge_state::{
    is_healthy, BridgeState, BridgeStateSummary, ConnectionStatus, DeviceInfo, DeviceType,
};
use comelit_hub::bridge_state::{count_for, last_update_display, pairing_available};

fn light(id: &str, name: &str, status: &str) -> DeviceInfo {
    DeviceInfo {
        id: id.to_string(),
        name: name.to_string(),
        device_type: DeviceType::Light,
        status: status.to_string(),
        last_update: None,
    }
}

fn summary_with_uptime(uptime_seconds: u64) -> BridgeStateSummary {
    BridgeStateSummary {
        uptime_seconds,
        connection_status: ConnectionStatus::Connected,
        is_paired: false,
        pairing_pin: String::new(),
        pairing_url: String::new(),
        device_count: 0,
        device_counts: Vec::new(),
        last_ping_seconds_ago: None,
        ping_count: 0,
        ping_failures: 0,
        update_count: 0,
        hub_host: None,
        last_error: None,
    }
}

#[test]
fn test_bridge_state_new() {
    let state = BridgeState::new(0);
    assert_eq!(state.connection_status(), ConnectionStatus::Disconnected);
    assert!(!state.is_paired());
    assert_eq!(state.device_count(), 0);
}

#[test]
fn test_register_device() {
    let mut state = BridgeState::new(0);
    state.register_device(light("light1", "Living Room Light", "on"));
    assert_eq!(state.device_count(), 1);
    assert_eq!(state.devices_by_type(DeviceType::Light).len(), 1);
}

#[test]
fn test_update_device_status() {
    let mut state = BridgeState::new(0);
    state.register_device(light("light1", "Living Room Light", "off"));
    state.update_device_status("light1", "on".to_string(), 5);
    let devices = state.devices();
    assert_eq!(devices[0].status, "on");
    assert!(devices[0].last_update.is_some());
}

#[test]
fn test_ping_recording() {
    let mut state = BridgeState::new(0);
    state.record_ping(true, 1);
    state.record_ping(true, 2);
    state.record_ping(false, 3);
    assert_eq!(state.ping_count(), 3);
    assert_eq!(state.ping_failures(), 1);
    assert!(state.last_ping().is_some());
}

#[test]
fn test_uptime_display() {
    let summary = summary_with_uptime(90061); // 1 day, 1 hour, 1 minute, 1 second
    assert_eq!(summary.uptime_display(), "1d 1h 1m 1s");
}

#[test]
fn uptime_display_leaves_out_leading_zero_units() {
    assert_eq!(summary_with_uptime(0).uptime_display(), "0s");
    assert_eq!(summary_with_uptime(59).uptime_display(), "59s");
    assert_eq!(summary_with_uptime(61).uptime_display(), "1m 1s");
    assert_eq!(summary_with_uptime(3600).uptime_display(), "1h 0m 0s");
    assert_eq!(summary_with_uptime(86400).uptime_display(), "1d 0h 0m 0s");
}

#[test]
fn registering_the_same_id_replaces_the_device() {
    let mut state = BridgeState::new(0);
    state.register_device(light("light1", "Old", "off"));
    state.register_device(light("light1", "New", "on"));
    assert_eq!(state.device_count(), 1);
    assert_eq!(state.devices()[0].name, "New");
}

#[test]
fn status_of_unknown_device_is_only_counted() {
    let mut state = BridgeState::new(0);
    state.register_device(light("light1", "Lamp", "off"));
    state.update_device_status("nope", "on".to_string(), 7);
    assert_eq!(state.devices()[0].status, "off");
    assert_eq!(state.devices()[0].last_update, None);
    assert_eq!(state.update_count(), 1);
}

#[test]
fn devices_by_type_and_counts() {
    let mut state = BridgeState::new(0);
    state.register_device(light("l1", "A", "on"));
    state.register_device(DeviceInfo {
        id: "t1".to_string(),
        name: "Thermo".to_string(),
        device_type: DeviceType::Thermostat,
        status: "20.5°C".to_string(),
        last_update: None,
    });
    state.register_device(light("l2", "B", "off"));
    let lights = state.devices_by_type(DeviceType::Light);
    assert_eq!(lights.len(), 2);
    assert_eq!(lights[0].id, "l1");
    assert_eq!(lights[1].id, "l2");
    assert!(state.devices_by_type(DeviceType::Door).is_empty());
    let counts = state.device_counts();
    assert!(counts.contains(&(DeviceType::Light, 2)));
    assert!(counts.contains(&(DeviceType::Thermostat, 1)));
    assert_eq!(counts.len(), 2);
}

#[test]
fn summary_reflects_state() {
    let mut state = BridgeState::new(100_000);
    state.set_connection_status(ConnectionStatus::Connected);
    state.set_paired(true);
    state.set_hub_host("192.168.1.2".to_string());
    state.record_ping(true, 150_000);
    state.set_error(Some("boom".to_string()));
    let s = state.summary(160_500);
    assert_eq!(s.uptime_seconds, 60);
    assert_eq!(s.connection_status, ConnectionStatus::Connected);
    assert!(s.is_paired);
    assert_eq!(s.last_ping_seconds_ago, Some(10));
    assert_eq!(s.ping_count, 1);
    assert_eq!(s.hub_host, Some("192.168.1.2".to_string()));
    assert_eq!(s.last_error, Some("boom".to_string()));
    assert!(is_healthy(&s));
}

#[test]
fn unhealthy_without_recent_ping() {
    let mut s = summary_with_uptime(10);
    assert!(!is_healthy(&s));
    s.last_ping_seconds_ago = Some(120);
    assert!(!is_healthy(&s));
    s.last_ping_seconds_ago = Some(119);
    assert!(is_healthy(&s));
    s.connection_status = ConnectionStatus::Error;
    assert!(!is_healthy(&s));
}

#[test]
fn seconds_since_last_ping() {
    let mut state = BridgeState::new(0);
    assert_eq!(state.seconds_since_last_ping(10_000), None);
    state.record_ping(true, 10_000);
    state.record_ping(false, 20_000);
    assert_eq!(state.seconds_since_last_ping(25_999), Some(15));
    assert_eq!(state.last_ping(), Some(10_000));
}

#[test]
fn labels_of_kinds_and_statuses() {
    assert_eq!(DeviceType::WindowCovering.as_str(), "window_covering");
    assert_eq!(DeviceType::WindowCovering.display_name(), "Window Covering");
    assert_eq!(DeviceType::Doorbell.as_str(), "doorbell");
    assert_eq!(ConnectionStatus::Connecting.as_str(), "connecting");
    assert_eq!(ConnectionStatus::Error.as_str(), "error");
}

#[test]
fn counts_by_kind_default_to_zero() {
    let counts = vec![(DeviceType::Light, 3), (DeviceType::Door, 1)];
    assert_eq!(count_for(&counts, DeviceType::Light), 3);
    assert_eq!(count_for(&counts, DeviceType::Door), 1);
    assert_eq!(count_for(&counts, DeviceType::Thermostat), 0);
}

#[test]
fn last_update_texts() {
    assert_eq!(last_update_display(None, 5_000), "never");
    assert_eq!(last_update_display(Some(1_000), 43_500), "42s ago");
    assert_eq!(last_update_display(Some(9_000), 1_000), "0s ago");
}

#[test]
fn pairing_needs_url_and_pin() {
    let mut s = summary_with_uptime(0);
    assert!(!pairing_available(&s));
    s.pairing_url = "X-HM://0023ISYWY".to_string();
    assert!(!pairing_available(&s));
    s.pairing_pin = "111-22-333".to_string();
    assert!(pairing_available(&s));
}

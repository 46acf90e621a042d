use comelit_hub::covering::{PositionState, FULLY_CLOSED, FULLY_OPENED};
use comelit_hub::matter::{
    bridge_endpoints, bridged_endpoint, comelit_to_matter_percent,
    comelit_to_matter_percent_100ths, covering_request_target, filter_selects, find_device,
    find_endpoint, from_system_mode, matter_percent_100ths_to_comelit, operational_status,
    setpoint_raise_lower, to_system_mode, CoveringRequest, NonRootMatcher, SystemMode,
};
use comelit_hub::thermostat::TargetHeatingCoolingState;
use comelit_hub::matter::{
    dataver_bumps, invoke_route, matter_lights, read_route, write_route, LightCluster, MatterRoute,
    BRIDGED_INFO_CLUSTER, DESCRIPTOR_CLUSTER, GROUPS_CLUSTER, ON_OFF_CLUSTER,
};
use comelit_hub::devices::{HomeDeviceData, LightDeviceData, DoorDeviceData};
use comelit_hub::protocol::{DeviceStatus, ObjectSubtype, ObjectType};

#[test]
fn lift_percent_conversion_is_inverted() {
    // Comelit 100 (fully open) -> Matter 0 (fully open).
    assert_eq!(comelit_to_matter_percent(FULLY_OPENED), 0);
    assert_eq!(comelit_to_matter_percent_100ths(FULLY_OPENED), 0);
    // Comelit 0 (fully closed) -> Matter 10000 (fully closed).
    assert_eq!(comelit_to_matter_percent(FULLY_CLOSED), 100);
    assert_eq!(comelit_to_matter_percent_100ths(FULLY_CLOSED), 10000);
    assert_eq!(comelit_to_matter_percent_100ths(30), 7000);

    assert_eq!(matter_percent_100ths_to_comelit(0), FULLY_OPENED);
    assert_eq!(matter_percent_100ths_to_comelit(10000), FULLY_CLOSED);
    assert_eq!(matter_percent_100ths_to_comelit(7000), 30);
    // Out-of-range input is clamped, never panics.
    assert_eq!(matter_percent_100ths_to_comelit(u16::MAX), FULLY_CLOSED);
}

#[test]
fn operational_status_mirrors_lift_onto_global() {
    assert_eq!(operational_status(PositionState::Stopped), 0b0000);
    assert_eq!(operational_status(PositionState::MovingUp), 0b0101);
    assert_eq!(operational_status(PositionState::MovingDown), 0b1010);
}

#[test]
fn auto_is_reduced_to_heat_and_never_exposed_as_matter_auto() {
    assert_eq!(to_system_mode(TargetHeatingCoolingState::Auto), SystemMode::Heat);
    assert_eq!(to_system_mode(TargetHeatingCoolingState::Heat), SystemMode::Heat);
    assert_eq!(to_system_mode(TargetHeatingCoolingState::Cool), SystemMode::Cool);
    assert_eq!(to_system_mode(TargetHeatingCoolingState::Off), SystemMode::Off);
}

#[test]
fn unsupported_matter_modes_fall_back_to_off() {
    assert_eq!(from_system_mode(SystemMode::Auto), TargetHeatingCoolingState::Off);
    assert_eq!(from_system_mode(SystemMode::FanOnly), TargetHeatingCoolingState::Off);
    assert_eq!(from_system_mode(SystemMode::EmergencyHeat), TargetHeatingCoolingState::Heat);
    assert_eq!(from_system_mode(SystemMode::Precooling), TargetHeatingCoolingState::Cool);
}

#[test]
fn hvac_state_encoding_round_trips() {
    for state in [
        TargetHeatingCoolingState::Off,
        TargetHeatingCoolingState::Heat,
        TargetHeatingCoolingState::Cool,
        TargetHeatingCoolingState::Auto,
    ] {
        assert_eq!(TargetHeatingCoolingState::decode(state as u8), state);
    }
}

#[test]
fn lift_values_above_full_scale() {
    assert_eq!(comelit_to_matter_percent(200), 0);
    assert_eq!(comelit_to_matter_percent_100ths(200), 0);
    assert_eq!(matter_percent_100ths_to_comelit(10001), FULLY_CLOSED);
    assert_eq!(matter_percent_100ths_to_comelit(150), 99);
}

#[test]
fn system_modes_round_trip_except_auto() {
    for state in [
        TargetHeatingCoolingState::Off,
        TargetHeatingCoolingState::Heat,
        TargetHeatingCoolingState::Cool,
    ] {
        assert_eq!(from_system_mode(to_system_mode(state)), state);
    }
    assert_eq!(from_system_mode(SystemMode::Dry), TargetHeatingCoolingState::Off);
    assert_eq!(from_system_mode(SystemMode::Sleep), TargetHeatingCoolingState::Off);
}

#[test]
fn setpoint_steps_are_tenths_of_a_degree_and_clamped() {
    assert_eq!(setpoint_raise_lower(2000, 5), 2050);
    assert_eq!(setpoint_raise_lower(2000, -10), 1900);
    assert_eq!(setpoint_raise_lower(3400, 100), 3500);
    assert_eq!(setpoint_raise_lower(800, -100), 700);
}

#[test]
fn covering_requests_target_positions() {
    assert_eq!(covering_request_target(CoveringRequest::UpOrOpen), FULLY_OPENED);
    assert_eq!(covering_request_target(CoveringRequest::DownOrClose), FULLY_CLOSED);
    assert_eq!(covering_request_target(CoveringRequest::GoToLiftPercentage(2500)), 75);
}

#[test]
fn endpoints_and_filters() {
    assert_eq!(bridged_endpoint(0), 2);
    assert_eq!(bridge_endpoints(3), vec![0, 1, 2, 3, 4]);
    assert!(filter_selects(None, 7));
    assert!(filter_selects(Some(7), 7));
    assert!(!filter_selects(Some(6), 7));
    let m = NonRootMatcher;
    assert!(!m.matches(Some(0)));
    assert!(m.matches(Some(1)));
    assert!(m.matches(None));
}

#[test]
fn reports_find_their_device() {
    let ids = vec!["DOM#LT#1".to_string(), "DOM#LT#2".to_string(), "DOM#LT#2".to_string()];
    assert_eq!(find_device(&ids, "DOM#LT#2"), Some(1));
    assert_eq!(find_device(&ids, "DOM#LT#3"), None);
    assert_eq!(find_endpoint(&vec![2, 3, 4], 4), Some(2));
    assert_eq!(find_endpoint(&vec![2, 3, 4], 9), None);
}

#[test]
fn requests_are_routed_to_the_lights() {
    let eps = vec![2, 3, 4];
    assert_eq!(read_route(1, DESCRIPTOR_CLUSTER, &eps), MatterRoute::Aggregator);
    assert_eq!(read_route(3, GROUPS_CLUSTER, &eps), MatterRoute::Light { index: 1, cluster: LightCluster::Groups });
    assert_eq!(read_route(4, BRIDGED_INFO_CLUSTER, &eps), MatterRoute::Light { index: 2, cluster: LightCluster::BridgedInfo });
    assert_eq!(read_route(2, 0x0300, &eps), MatterRoute::ClusterNotFound);
    assert_eq!(read_route(9, ON_OFF_CLUSTER, &eps), MatterRoute::EndpointNotFound);
    assert_eq!(write_route(2, ON_OFF_CLUSTER, &eps), MatterRoute::Light { index: 0, cluster: LightCluster::OnOff });
    assert_eq!(write_route(2, DESCRIPTOR_CLUSTER, &eps), MatterRoute::AttributeNotFound);
    assert_eq!(write_route(1, ON_OFF_CLUSTER, &eps), MatterRoute::EndpointNotFound);
    assert_eq!(invoke_route(4, ON_OFF_CLUSTER, &eps), MatterRoute::Light { index: 2, cluster: LightCluster::OnOff });
    assert_eq!(invoke_route(4, GROUPS_CLUSTER, &eps), MatterRoute::CommandNotFound);
}

#[test]
fn change_notices_bump_selected_data_versions() {
    let eps = vec![2, 3];
    let (agg, bumps) = dataver_bumps(None, None, &eps);
    assert!(agg);
    assert_eq!(bumps.len(), 8);
    assert_eq!(bumps[0], (0, LightCluster::Descriptor));
    assert_eq!(bumps[7], (1, LightCluster::OnOff));
    let (agg, bumps) = dataver_bumps(Some(3), Some(ON_OFF_CLUSTER), &eps);
    assert!(!agg);
    assert_eq!(bumps, vec![(1, LightCluster::OnOff)]);
    let (agg, bumps) = dataver_bumps(Some(1), Some(GROUPS_CLUSTER), &eps);
    assert!(!agg);
    assert!(bumps.is_empty());
}

#[test]
fn matter_lights_are_sorted_by_id() {
    let light = |id: &str, desc: Option<&str>, status| HomeDeviceData::Light(LightDeviceData {
        id: id.to_string(),
        object_type: ObjectType::Light,
        sub_type: ObjectSubtype::DigitalLight,
        status,
        description: desc.map(|d| d.to_string()),
        power_status: None,
    });
    let door = HomeDeviceData::Door(DoorDeviceData {
        id: "VIP#OD#1".to_string(),
        object_type: ObjectType::Door,
        sub_type: ObjectSubtype::Door,
        status: None,
        description: None,
    });
    let entries = vec![
        ("DOM#LT#2".to_string(), light("DOM#LT#2", Some("Hall"), Some(DeviceStatus::On))),
        ("VIP#OD#1".to_string(), door.clone()),
        ("DOM#LT#1".to_string(), light("DOM#LT#1", None, Some(DeviceStatus::Running))),
    ];
    let lights = matter_lights(&entries).unwrap();
    assert_eq!(lights.len(), 2);
    assert_eq!(lights[0].device_id, "DOM#LT#1");
    assert_eq!(lights[0].label, "DOM#LT#1");
    assert!(!lights[0].initial_on);
    assert_eq!(lights[1].label, "Hall");
    assert!(lights[1].initial_on);
    let no_lights = vec![("VIP#OD#1".to_string(), door)];
    assert_eq!(matter_lights(&no_lights).unwrap_err(), "No lights found in Comelit index");
}

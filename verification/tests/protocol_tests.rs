use comelit_hub::devices::{
    entry_kind, flatten_device_nodes, AgentDeviceData, DeviceData, DeviceNode, HomeDeviceData,
    IndexEntryKind, LightDeviceData,
};
use comelit_hub::protocol::{
    parse_digit, ActionType, ClimaMode, ClimaOnOff, DeviceStatus, ObjectSubtype, ObjectType,
    OpenStatus, PowerStatus, ThermoSeason, WindowCoveringStatus,
};

#[test]
fn object_codes() {
    assert_eq!(ObjectType::from_code(2), ObjectType::WindowCovering);
    assert_eq!(ObjectType::from_code(2001), ObjectType::Door);
    assert_eq!(ObjectType::from_code(12345), ObjectType::Unknown);
    assert_eq!(ObjectType::VipElement.code(), 2000);
    assert_eq!(ObjectSubtype::from_code(31), ObjectSubtype::EnhancedElectricBlind);
    assert_eq!(ObjectSubtype::from_code(-1), ObjectSubtype::Unknown);
    assert_eq!(ObjectSubtype::ClimaThermostatDehumidifier.code(), 16);
}

#[test]
fn action_codes() {
    assert_eq!(ActionType::SetBlindPosition.code(), 52);
    assert_eq!(ActionType::SwitchUmiMode.code(), 23);
    assert_eq!(ActionType::from_code(19), ActionType::UmiSetpoint);
}

#[test]
fn status_texts_read_and_write() {
    assert_eq!(DeviceStatus::from_text("2"), DeviceStatus::Running);
    assert_eq!(DeviceStatus::Running.as_text(), "2");
    assert_eq!(ClimaMode::from_text("6"), ClimaMode::OffManual);
    assert_eq!(ClimaMode::SemiAuto.as_text(), "3");
    assert_eq!(ClimaOnOff::from_text("3"), ClimaOnOff::OnHumi);
    assert_eq!(ThermoSeason::from_text("1"), ThermoSeason::Winter);
    assert_eq!(ThermoSeason::Summer.as_text(), "0");
    assert_eq!(WindowCoveringStatus::from_text("2"), WindowCoveringStatus::GoingDown);
    assert_eq!(PowerStatus::On.as_text(), "2");
    assert_eq!(OpenStatus::from_text("1"), OpenStatus::from_code(1));
}

#[test]
fn unknown_status_texts_fall_back() {
    assert_eq!(DeviceStatus::from_text("7"), DeviceStatus::Off);
    assert_eq!(DeviceStatus::from_text("12"), DeviceStatus::Off);
    assert_eq!(DeviceStatus::from_text(""), DeviceStatus::Off);
    assert_eq!(ClimaMode::from_text("x"), ClimaMode::NoMode);
    assert_eq!(parse_digit("5"), 5);
    assert_eq!(parse_digit("55"), -1);
    assert_eq!(parse_digit("a"), -1);
}

#[test]
fn every_code_reads_back() {
    for s in [DeviceStatus::Off, DeviceStatus::On, DeviceStatus::Running] {
        assert_eq!(DeviceStatus::from_code(s.code()), s);
        assert_eq!(DeviceStatus::from_text(s.as_text()), s);
    }
    for m in [
        ClimaMode::NoMode, ClimaMode::Auto, ClimaMode::Manual, ClimaMode::SemiAuto,
        ClimaMode::SemiMan, ClimaMode::OffAuto, ClimaMode::OffManual,
    ] {
        assert_eq!(ClimaMode::from_code(m.code()), m);
        assert_eq!(ClimaMode::from_text(m.as_text()), m);
    }
}

#[test]
fn defaults() {
    assert_eq!(ThermoSeason::default(), ThermoSeason::Winter);
    assert_eq!(ClimaMode::default(), ClimaMode::NoMode);
    assert_eq!(DeviceStatus::default(), DeviceStatus::Off);
}

#[test]
fn index_entry_kinds() {
    assert_eq!(entry_kind(ObjectType::VipElement), IndexEntryKind::Doorbell);
    assert_eq!(entry_kind(ObjectType::PowerSupplier), IndexEntryKind::Supplier);
    assert_eq!(entry_kind(ObjectType::Zone), IndexEntryKind::Zone);
    assert_eq!(entry_kind(ObjectType::Unknown), IndexEntryKind::Skip);
}

fn light(id: &str, description: Option<&str>) -> HomeDeviceData {
    HomeDeviceData::Light(LightDeviceData {
        id: id.to_string(),
        object_type: ObjectType::Light,
        sub_type: ObjectSubtype::DigitalLight,
        status: Some(DeviceStatus::On),
        description: description.map(|d| d.to_string()),
        power_status: None,
    })
}

#[test]
fn device_ids_and_names() {
    let d = light("DOM#LT#1", Some("Kitchen"));
    assert_eq!(d.id(), "DOM#LT#1");
    assert_eq!(d.name(), "Kitchen");
    let d = light("DOM#LT#2", None);
    assert_eq!(d.name(), "DOM#LT#2");
    let a = HomeDeviceData::Agent(AgentDeviceData { agent_id: 42, description: "Agent".to_string() });
    assert_eq!(a.id(), "42");
    assert_eq!(a.name(), "Agent");
    let g = HomeDeviceData::Data(DeviceData {
        id: "GEN#17#13#1".to_string(),
        object_type: ObjectType::Agent,
        sub_type: ObjectSubtype::Generic,
        status: None,
        description: None,
        power_status: None,
    });
    assert_eq!(g.id(), "GEN#17#13#1");
}

#[test]
fn zones_flatten_in_order() {
    let tree = vec![
        DeviceNode::Device(light("a", None)),
        DeviceNode::Zone(vec![
            DeviceNode::Device(light("b", None)),
            DeviceNode::Unknown,
            DeviceNode::Zone(vec![DeviceNode::Device(light("c", None))]),
        ]),
        DeviceNode::Device(light("d", None)),
    ];
    let ids: Vec<String> = flatten_device_nodes(tree).iter().map(|d| d.id()).collect();
    assert_eq!(ids, vec!["a", "b", "c", "d"]);
}

use comelit_hub::bridge::{
    accessory_first_ids, covering_status_text, door_status_text, is_mounted, light_status_text,
    sort_by_id, thermostat_status_text, DoorSettings, Settings, WebConfig,
};
use comelit_hub::protocol::DeviceStatus;
use comelit_hub::bridge::{device_update_of, registration_of};
use comelit_hub::bridge_state::DeviceType;
use comelit_hub::devices::{AgentDeviceData, DoorDeviceData, DoorbellDeviceData, HomeDeviceData, ThermostatDeviceData};
use comelit_hub::protocol::{ObjectSubtype, ObjectType};

#[test]
fn default_settings() {
    let s = Settings::default();
    assert_eq!(s.pairing_code, [1, 1, 1, 2, 2, 3, 3, 3]);
    assert_eq!(s.mount_lights, Some(true));
    assert_eq!(s.mount_doorbells, Some(false));
    assert_eq!(s.window_covering.opening_time, 35);
    assert_eq!(s.door, DoorSettings { opening_closing_time: 60, opened_time: 60 });
    let w = WebConfig::default();
    assert_eq!(w.port, 8080);
    assert!(w.enabled);
}

#[test]
fn mounting() {
    assert!(is_mounted(Some(true)));
    assert!(!is_mounted(Some(false)));
    assert!(!is_mounted(None));
}

#[test]
fn accessory_ids_follow_the_bridge() {
    // Lights (3), coverings (2, not mounted), thermostats (1), doors (2).
    let ids = accessory_first_ids(&vec![3, 2, 1, 2], &vec![true, false, true, true]);
    assert_eq!(ids, vec![2, 5, 5, 6]);
    assert!(accessory_first_ids(&vec![], &vec![]).is_empty());
}

#[test]
fn status_texts() {
    assert_eq!(light_status_text(Some(DeviceStatus::Running)), "on");
    assert_eq!(light_status_text(None), "off");
    assert_eq!(door_status_text(Some(DeviceStatus::On)), "open");
    assert_eq!(door_status_text(Some(DeviceStatus::Off)), "closed");
    assert_eq!(covering_status_text(Some(DeviceStatus::Off)), "Off");
    assert_eq!(covering_status_text(None), "unknown");
    assert_eq!(thermostat_status_text(&Some("21.5".to_string())), "21.5°C");
    assert_eq!(thermostat_status_text(&None), "--°C");
}

#[test]
fn sorting_by_id_is_stable() {
    let ids: Vec<String> = ["DOM#LT#3", "DOM#LT#1", "DOM#LT#2", "DOM#LT#1", "DOM#LT#10"]
        .iter()
        .map(|s| s.to_string())
        .collect();
    assert_eq!(sort_by_id(&ids), vec![1, 3, 4, 2, 0]);
    assert!(sort_by_id(&vec![]).is_empty());
}

fn light_report(status: Option<DeviceStatus>) -> comelit_hub::devices::HomeDeviceData {
    comelit_hub::devices::HomeDeviceData::Light(comelit_hub::devices::LightDeviceData {
        id: "DOM#LT#1".to_string(),
        object_type: comelit_hub::protocol::ObjectType::Light,
        sub_type: comelit_hub::protocol::ObjectSubtype::DigitalLight,
        status,
        description: Some("Kitchen".to_string()),
        power_status: None,
    })
}

#[test]
fn reports_update_the_bookkeeping() {
    let u = device_update_of(&light_report(Some(DeviceStatus::Running))).unwrap();
    assert_eq!(u.device_type, DeviceType::Light);
    assert_eq!(u.status, Some("on".to_string()));
    let bell = HomeDeviceData::Doorbell(DoorbellDeviceData {
        id: "VIP#EB#1".to_string(),
        object_type: ObjectType::VipElement,
        sub_type: ObjectSubtype::Generic,
        status: Some(DeviceStatus::On),
        description: None,
    });
    let u = device_update_of(&bell).unwrap();
    assert_eq!(u.device_type, DeviceType::Doorbell);
    assert_eq!(u.status, None);
    let thermo = HomeDeviceData::Thermostat(ThermostatDeviceData {
        id: "DOM#TH#1".to_string(),
        object_type: ObjectType::Thermostat,
        sub_type: ObjectSubtype::ClimaTerm,
        status: None,
        description: None,
        temperature: Some("215".to_string()),
        auto_man: None,
        season: None,
        active_threshold: None,
        humidity: None,
        humi_active_threshold: None,
        auto_man_umi: None,
    });
    assert_eq!(device_update_of(&thermo).unwrap().status, Some("215°C".to_string()));
    let agent = HomeDeviceData::Agent(AgentDeviceData { agent_id: 1, description: "a".to_string() });
    assert!(device_update_of(&agent).is_none());
}

#[test]
fn registration_records() {
    let info = registration_of(&light_report(None)).unwrap();
    assert_eq!(info.id, "DOM#LT#1");
    assert_eq!(info.name, "Kitchen");
    assert_eq!(info.device_type, DeviceType::Light);
    assert_eq!(info.status, "off");
    assert_eq!(info.last_update, None);
    let bell = HomeDeviceData::Doorbell(DoorbellDeviceData {
        id: "VIP#EB#1".to_string(),
        object_type: ObjectType::VipElement,
        sub_type: ObjectSubtype::Generic,
        status: None,
        description: None,
    });
    let info = registration_of(&bell).unwrap();
    assert_eq!(info.name, "VIP#EB#1");
    assert_eq!(info.status, "idle");
}

#[test]
fn doors_register_closed_whatever_they_report() {
    let door = HomeDeviceData::Door(DoorDeviceData {
        id: "VIP#OD#1".to_string(),
        object_type: ObjectType::Door,
        sub_type: ObjectSubtype::Door,
        status: Some(DeviceStatus::On),
        description: Some("Gate".to_string()),
    });
    let info = registration_of(&door).unwrap();
    assert_eq!(info.status, "closed");
    assert_eq!(info.name, "Gate");
    // A later report of the same door does record its status.
    assert_eq!(device_update_of(&door).unwrap().status, Some("open".to_string()));
}

use comelit_hub::accessories::{
    DoorbellAccessory,
    check_door_mount, door_cycle_step, door_open_requested, doorbell_rings, light_after_report,
    light_after_write, light_on, light_write_toggle, DoorConfig, DoorCycleStep, DoorPositionState,
    DoorState, DoorType,
};
use comelit_hub::devices::{DoorDeviceData, LightDeviceData};
use comelit_hub::protocol::{DeviceStatus, ObjectSubtype, ObjectType};
use comelit_hub::accessories::light_listing_line;

fn light(status: Option<DeviceStatus>) -> LightDeviceData {
    LightDeviceData {
        id: "DOM#LT#1".to_string(),
        object_type: ObjectType::Light,
        sub_type: ObjectSubtype::DigitalLight,
        status,
        description: None,
        power_status: None,
    }
}

fn door(status: Option<DeviceStatus>) -> DoorDeviceData {
    DoorDeviceData {
        id: "VIP#OD#1".to_string(),
        object_type: ObjectType::Door,
        sub_type: ObjectSubtype::Door,
        status,
        description: Some("Gate".to_string()),
    }
}

#[test]
fn light_reports() {
    assert!(light_on(&light(Some(DeviceStatus::On))));
    assert!(!light_on(&light(Some(DeviceStatus::Off))));
    assert!(!light_on(&light(None)));
    assert_eq!(light_after_report(false, &light(Some(DeviceStatus::On))), (true, true));
    assert_eq!(light_after_report(true, &light(Some(DeviceStatus::On))), (true, false));
}

#[test]
fn light_writes() {
    assert_eq!(light_write_toggle(false, true), Some(true));
    assert_eq!(light_write_toggle(true, true), None);
    assert!(light_after_write(false, true, true));
    assert!(!light_after_write(false, true, false));
    assert!(light_after_write(true, true, false));
}

#[test]
fn door_reports() {
    let closed = DoorState::from_device_data(&door(Some(DeviceStatus::Off)));
    assert_eq!(closed, DoorState { current_position: 0, target_position: 0, position_state: DoorPositionState::Stopped });
    let open = DoorState::from_device_data(&door(Some(DeviceStatus::On)));
    assert_eq!(open, DoorState { current_position: 100, target_position: 100, position_state: DoorPositionState::Opening });
    assert_eq!(DoorState::from_device_data(&door(None)), closed);
    assert_eq!(DoorPositionState::Stopped.code(), 2);
}

#[test]
fn door_cycle_ends_closed() {
    let mut s = DoorState { current_position: 0, target_position: 0, position_state: DoorPositionState::Stopped };
    for step in [DoorCycleStep::StartOpening, DoorCycleStep::ReachedOpen, DoorCycleStep::StartClosing, DoorCycleStep::ReachedClosed] {
        s = door_cycle_step(s, step);
    }
    assert_eq!(s, DoorState { current_position: 0, target_position: 0, position_state: DoorPositionState::Stopped });
}

#[test]
fn door_mounts_and_requests() {
    let ok = DoorConfig { opening_closing_time_ms: 60_000, opened_time_ms: 60_000, mount_as: DoorType::Door };
    assert!(check_door_mount(&ok).is_ok());
    let garage = DoorConfig { mount_as: DoorType::GarageDoor, ..ok };
    assert_eq!(check_door_mount(&garage), Err("Invalid door mount type".to_string()));
    assert!(door_open_requested(100));
    assert!(!door_open_requested(0));
    assert!(!door_open_requested(50));
}

#[test]
fn doorbell_rings_only_when_pressed() {
    assert!(doorbell_rings(Some(DeviceStatus::On)));
    assert!(!doorbell_rings(Some(DeviceStatus::Off)));
    assert!(!doorbell_rings(Some(DeviceStatus::Running)));
    assert!(!doorbell_rings(None));
}

#[test]
fn light_listing_lines() {
    let mut l = light(Some(DeviceStatus::On));
    l.description = Some("Kitchen".to_string());
    assert_eq!(light_listing_line("DOM#LT#1", &l), "Light 'Kitchen' (DOM#LT#1) status: on");
    let l = light(None);
    assert_eq!(light_listing_line("DOM#LT#2", &l), "Light 'Unknown' (DOM#LT#2) status: off");
}

#[test]
fn doorbell_services_follow_the_information_service() {
    let mut a = DoorbellAccessory::new(7, 6);
    assert_eq!(a.get_id(), 7);
    assert_eq!(a.information_iid, 1);
    assert_eq!(a.doorbell_iid, 8);
    a.set_id(9);
    assert_eq!(a.get_id(), 9);
    assert_eq!(a.doorbell_iid, 8);
}

use comelit_hub::devices::ThermostatDeviceData;
use comelit_hub::humidity::{
    has_dehumidifier, dehumidifier_after_request, dehumidifier_status, dehumidifier_toggle, DehumidifierStatus,
};
use comelit_hub::protocol::{ClimaMode, ClimaOnOff, DeviceStatus, ObjectSubtype, ObjectType, ThermoSeason};
use comelit_hub::thermostat::TargetHeatingCoolingState as T;
use comelit_hub::thermostat::{
    heating_cooling_state, hvac_mode_commands, hvac_modes_after_request, thermostat_service_iids,
    HvacModes, TargetHeatingCoolingState, ThermostatCommand,
};

fn thermostat(auto_man: Option<ClimaMode>, season: Option<ThermoSeason>, status: Option<DeviceStatus>, umi: Option<ClimaMode>) -> ThermostatDeviceData {
    ThermostatDeviceData {
        id: "DOM#TH#1".to_string(),
        object_type: ObjectType::Thermostat,
        sub_type: ObjectSubtype::ClimaThermostatDehumidifier,
        status,
        description: None,
        temperature: Some("215".to_string()),
        auto_man,
        season,
        active_threshold: Some("220".to_string()),
        humidity: Some("55".to_string()),
        humi_active_threshold: Some("60".to_string()),
        auto_man_umi: umi,
    }
}

/// The thermostat report the thermostat-state tests start from.
fn thermostat_base_data() -> ThermostatDeviceData {
    ThermostatDeviceData {
        id: "DOM#TH#1".to_string(),
        object_type: ObjectType::Thermostat,
        sub_type: ObjectSubtype::ClimaTerm,
        status: None,
        description: None,
        temperature: Some("215".to_string()),
        auto_man: Some(ClimaMode::Manual),
        season: Some(ThermoSeason::Winter),
        active_threshold: Some("220".to_string()),
        humidity: None,
        humi_active_threshold: None,
        auto_man_umi: None,
    }
}

/// The thermostat report the dehumidifier-state tests start from.
fn humidity_base_data() -> ThermostatDeviceData {
    ThermostatDeviceData {
        id: "DOM#TH#1".to_string(),
        object_type: ObjectType::Thermostat,
        sub_type: ObjectSubtype::ClimaThermostatDehumidifier,
        status: Some(DeviceStatus::On),
        description: None,
        temperature: None,
        auto_man: None,
        season: None,
        active_threshold: None,
        humidity: Some("55.5".to_string()),
        humi_active_threshold: Some("60".to_string()),
        auto_man_umi: Some(ClimaMode::Manual),
    }
}

// The library derives the heating/cooling state; the temperatures, which are
// floating point, are read by the program around it.
#[test]
fn test_winter_manual_is_heat() {
    let data = thermostat_base_data();
    let state = heating_cooling_state(&data);
    assert_eq!(state, TargetHeatingCoolingState::Heat);
}

#[test]
fn test_summer_manual_is_cool() {
    let mut data = thermostat_base_data();
    data.season = Some(ThermoSeason::Summer);
    assert_eq!(heating_cooling_state(&data), TargetHeatingCoolingState::Cool);
}

#[test]
fn test_off_auto_is_off_regardless_of_season() {
    let mut data = thermostat_base_data();
    data.auto_man = Some(ClimaMode::OffAuto);
    data.season = Some(ThermoSeason::Winter);
    assert_eq!(heating_cooling_state(&data), TargetHeatingCoolingState::Off);
}

#[test]
fn test_summer_auto_is_auto() {
    let mut data = thermostat_base_data();
    data.season = Some(ThermoSeason::Summer);
    data.auto_man = Some(ClimaMode::Auto);
    assert_eq!(heating_cooling_state(&data), TargetHeatingCoolingState::Auto);
}

#[test]
fn test_winter_auto_is_still_heat() {
    let mut data = thermostat_base_data();
    data.season = Some(ThermoSeason::Winter);
    data.auto_man = Some(ClimaMode::Auto);
    assert_eq!(heating_cooling_state(&data), TargetHeatingCoolingState::Heat);
}

#[test]
fn absent_mode_and_season_read_as_winter_heating() {
    let d = thermostat(None, None, None, None);
    assert_eq!(heating_cooling_state(&d), TargetHeatingCoolingState::Heat);
}

// The library derives the dehumidifier's state; the humidities, which are
// floating point, are read by the program around it.
#[test]
fn test_active_manual_dehumidifying_is_state_3() {
    let data = humidity_base_data();
    let state = dehumidifier_status(&data);
    assert!(state.dehumidifier_active);
    assert_eq!(state.dehumidifier_current_state, 3);
}

#[test]
fn test_active_but_not_running_is_idle_state_1() {
    let mut data = humidity_base_data();
    data.status = Some(DeviceStatus::Off);
    let state = dehumidifier_status(&data);
    assert!(state.dehumidifier_active);
    assert_eq!(state.dehumidifier_current_state, 1);
}

#[test]
fn test_off_manual_is_inactive_state_0() {
    let mut data = humidity_base_data();
    data.auto_man_umi = Some(ClimaMode::OffManual);
    let state = dehumidifier_status(&data);
    assert!(!state.dehumidifier_active);
    assert_eq!(state.dehumidifier_current_state, 0);
}

#[test]
fn test_off_auto_is_inactive_state_0() {
    let mut data = humidity_base_data();
    data.auto_man_umi = Some(ClimaMode::OffAuto);
    let state = dehumidifier_status(&data);
    assert!(!state.dehumidifier_active);
    assert_eq!(state.dehumidifier_current_state, 0);
}

#[test]
fn dehumidifier_without_mode_is_inactive() {
    let d = thermostat(None, None, Some(DeviceStatus::On), None);
    assert!(!dehumidifier_status(&d).dehumidifier_active);
    assert_eq!(dehumidifier_status(&d).dehumidifier_current_state, 0);
}

#[test]
fn hvac_commands_in_order() {
    assert_eq!(hvac_mode_commands(T::Off, T::Heat), vec![
        ThermostatCommand::ToggleStatus(ClimaOnOff::OnThermo),
        ThermostatCommand::SetSeason(ThermoSeason::Winter),
    ]);
    assert_eq!(hvac_mode_commands(T::Heat, T::Off), vec![ThermostatCommand::ToggleStatus(ClimaOnOff::OffThermo)]);
    assert_eq!(hvac_mode_commands(T::Heat, T::Auto), vec![
        ThermostatCommand::ToggleStatus(ClimaOnOff::OnThermo),
        ThermostatCommand::SetMode(ClimaMode::Auto),
    ]);
    assert_eq!(hvac_mode_commands(T::Auto, T::Heat), vec![
        ThermostatCommand::ToggleStatus(ClimaOnOff::OnThermo),
        ThermostatCommand::SetMode(ClimaMode::Manual),
        ThermostatCommand::SetSeason(ThermoSeason::Winter),
    ]);
    assert_eq!(hvac_mode_commands(T::Auto, T::Off), vec![ThermostatCommand::ToggleStatus(ClimaOnOff::OffThermo)]);
}

#[test]
fn hvac_state_changes_only_when_toggle_succeeds() {
    let modes = HvacModes { heating_cooling_state: TargetHeatingCoolingState::Off, target_heating_cooling_state: TargetHeatingCoolingState::Off };
    let (m, notify) = hvac_modes_after_request(modes, TargetHeatingCoolingState::Cool, true);
    assert!(notify);
    assert_eq!(m.heating_cooling_state, TargetHeatingCoolingState::Cool);
    assert_eq!(m.target_heating_cooling_state, TargetHeatingCoolingState::Cool);
    let (m, notify) = hvac_modes_after_request(modes, TargetHeatingCoolingState::Cool, false);
    assert!(!notify);
    assert_eq!(m, modes);
}

#[test]
fn hvac_codes() {
    assert_eq!(TargetHeatingCoolingState::Cool.code(), 2);
    assert_eq!(TargetHeatingCoolingState::decode(9), TargetHeatingCoolingState::Off);
    assert_eq!(TargetHeatingCoolingState::default(), TargetHeatingCoolingState::Off);
}

#[test]
fn thermostat_instance_ids() {
    assert_eq!(thermostat_service_iids(6, 10, false), (8, None));
    assert_eq!(thermostat_service_iids(6, 10, true), (8, Some(19)));
}

#[test]
fn dehumidifier_requests() {
    assert_eq!(dehumidifier_toggle(true), ClimaOnOff::OnHumi);
    assert_eq!(dehumidifier_toggle(false), ClimaOnOff::OffHumi);
    let s = DehumidifierStatus { dehumidifier_active: false, dehumidifier_current_state: 0 };
    assert_eq!(dehumidifier_after_request(s, true, true), (DehumidifierStatus { dehumidifier_active: true, dehumidifier_current_state: 1 }, true));
    assert_eq!(dehumidifier_after_request(s, true, false), (s, false));
}

#[test]
fn dehumidifier_comes_with_its_sub_type() {
    let mut d = thermostat(None, None, None, None);
    assert!(has_dehumidifier(&d));
    d.sub_type = ObjectSubtype::ClimaTerm;
    assert!(!has_dehumidifier(&d));
}

//! Dehumidifiers built into thermostats: whether one is active, what it is
//! doing, and the command that switches it.
use vstd::prelude::*;
use crate::devices::ThermostatDeviceData;
use crate::protocol::{ClimaMode, ClimaOnOff, DeviceStatus, ObjectSubtype};

verus! {

/// HomeKit's "inactive" dehumidifier state.
pub const DEHUMIDIFIER_INACTIVE: u8 = 0;

/// HomeKit's "idle" dehumidifier state.
pub const DEHUMIDIFIER_IDLE: u8 = 1;

/// HomeKit's "dehumidifying" dehumidifier state.
pub const DEHUMIDIFIER_DEHUMIDIFYING: u8 = 3;

/// Whether the dehumidifier is switched on: its regulation mode (absent:
/// no mode) is neither "no mode" nor one of the two "off" modes.
pub open spec fn dehumidifier_active_of(auto_man_umi: Option<ClimaMode>) -> bool {
    let mode = match auto_man_umi { Some(m) => m, None => ClimaMode::NoMode };
    !(mode == ClimaMode::NoMode || mode == ClimaMode::OffAuto || mode == ClimaMode::OffManual)
}

/// What the dehumidifier is doing: inactive when switched off,
/// dehumidifying when switched on and the device reports itself on or
/// running, idle otherwise.
pub open spec fn dehumidifier_state_of(auto_man_umi: Option<ClimaMode>, status: Option<DeviceStatus>) -> u8 {
    if !dehumidifier_active_of(auto_man_umi) {
        DEHUMIDIFIER_INACTIVE
    } else if status == Some(DeviceStatus::On) || status == Some(DeviceStatus::Running) {
        DEHUMIDIFIER_DEHUMIDIFYING
    } else {
        DEHUMIDIFIER_IDLE
    }
}

/// Dehumidifier part of a thermostat's state.
#[derive(Debug, Clone, Copy, PartialEq, Eq, Structural)]
pub struct DehumidifierStatus {
    pub dehumidifier_active: bool,
    pub dehumidifier_current_state: u8,
}

/// Whether a thermostat has a dehumidifier built in: its sub-type says so.
pub fn has_dehumidifier(data: &ThermostatDeviceData) -> (b: bool)
    ensures
        b == (data.sub_type == ObjectSubtype::ClimaThermostatDehumidifier),
{
    data.sub_type == ObjectSubtype::ClimaThermostatDehumidifier
}

/// The dehumidifier status a thermostat report gives.
pub fn dehumidifier_status(data: &ThermostatDeviceData) -> (s: DehumidifierStatus)
    ensures
        s.dehumidifier_active == dehumidifier_active_of(data.auto_man_umi),
        s.dehumidifier_current_state == dehumidifier_state_of(data.auto_man_umi, data.status),
{
    let mode = match data.auto_man_umi {
        Some(m) => m,
        None => ClimaMode::NoMode,
    };
    let active = !(mode == ClimaMode::NoMode || mode == ClimaMode::OffAuto || mode == ClimaMode::OffManual);
    let running = match data.status {
        Some(DeviceStatus::On) | Some(DeviceStatus::Running) => true,
        _ => false,
    };
    let state = if !active {
        DEHUMIDIFIER_INACTIVE
    } else if running {
        DEHUMIDIFIER_DEHUMIDIFYING
    } else {
        DEHUMIDIFIER_IDLE
    };
    DehumidifierStatus { dehumidifier_active: active, dehumidifier_current_state: state }
}

/// The hub command that switches the dehumidifier on or off.
pub fn dehumidifier_toggle(active: bool) -> (c: ClimaOnOff)
    ensures
        c == (if active { ClimaOnOff::OnHumi } else { ClimaOnOff::OffHumi }),
{
    if active { ClimaOnOff::OnHumi } else { ClimaOnOff::OffHumi }
}

/// The dehumidifier status after a request to switch it to `active`, and
/// whether the sink is told: when the hub accepted the command the
/// dehumidifier is at once reported in the requested state (idle when
/// switched on, inactive when off) and the sink is told; otherwise nothing
/// changes.
pub open spec fn dehumidifier_after(s: DehumidifierStatus, active: bool, command_ok: bool) -> (DehumidifierStatus, bool) {
    if command_ok {
        (DehumidifierStatus {
            dehumidifier_active: active,
            dehumidifier_current_state: if active { DEHUMIDIFIER_IDLE } else { DEHUMIDIFIER_INACTIVE },
        }, true)
    } else {
        (s, false)
    }
}

/// The dehumidifier status after a request to switch it to `active` (see
/// [`dehumidifier_after`]).
pub fn dehumidifier_after_request(s: DehumidifierStatus, active: bool, command_ok: bool) -> (r: (DehumidifierStatus, bool))
    ensures
        r == dehumidifier_after(s, active, command_ok),
{
    if command_ok {
        let state = if active { DEHUMIDIFIER_IDLE } else { DEHUMIDIFIER_INACTIVE };
        (DehumidifierStatus { dehumidifier_active: active, dehumidifier_current_state: state }, true)
    } else {
        (s, false)
    }
}

/// A dehumidifier reads as dehumidifying or idle exactly when it is switched
/// on, both from hub reports and after a request: its current state never
/// contradicts its active flag.
pub proof fn lemma_dehumidifier_state_matches_active(
    auto_man_umi: Option<ClimaMode>,
    status: Option<DeviceStatus>,
    s: DehumidifierStatus,
    active: bool,
    ok: bool,
)
    requires
        (s.dehumidifier_current_state == DEHUMIDIFIER_INACTIVE) == !s.dehumidifier_active,
    ensures
        (dehumidifier_state_of(auto_man_umi, status) == DEHUMIDIFIER_INACTIVE) == !dehumidifier_active_of(auto_man_umi),
        ({
            let next = dehumidifier_after(s, active, ok).0;
            (next.dehumidifier_current_state == DEHUMIDIFIER_INACTIVE) == !next.dehumidifier_active
        }),
{
}

/// How a dehumidifier reads from a thermostat report: it is switched on
/// exactly when its mode is reported and is neither "no mode" nor an off
/// mode; switched on, it is dehumidifying (3) when the device reports itself
/// on or running and idle (1) otherwise; switched off it is inactive (0).
pub proof fn lemma_dehumidifier_reading(auto_man_umi: Option<ClimaMode>, status: Option<DeviceStatus>)
    ensures
        dehumidifier_active_of(auto_man_umi) <==> (auto_man_umi matches Some(m)
            && m != ClimaMode::NoMode && m != ClimaMode::OffAuto && m != ClimaMode::OffManual),
        dehumidifier_active_of(auto_man_umi) && (status == Some(DeviceStatus::On) || status == Some(DeviceStatus::Running))
            ==> dehumidifier_state_of(auto_man_umi, status) == 3,
        dehumidifier_active_of(auto_man_umi) && !(status == Some(DeviceStatus::On) || status == Some(DeviceStatus::Running))
            ==> dehumidifier_state_of(auto_man_umi, status) == 1,
        !dehumidifier_active_of(auto_man_umi) ==> dehumidifier_state_of(auto_man_umi, status) == 0,
{
}

} // verus!

//! Thermostats: how the hub's regulation mode and season read as a HomeKit
//! heating/cooling state, and the hub commands that set one.
use vstd::prelude::*;
use crate::devices::ThermostatDeviceData;
use crate::protocol::{ClimaMode, ClimaOnOff, ThermoSeason};

verus! {

/// Heating/cooling state of a thermostat as HomeKit knows it.
#[derive(Debug, Clone, Copy, PartialEq, Eq, Structural)]
pub enum TargetHeatingCoolingState {
    Off,
    Heat,
    Cool,
    Auto,
}

impl Default for TargetHeatingCoolingState {
    fn default() -> (s: TargetHeatingCoolingState)
        ensures
            s == TargetHeatingCoolingState::Off,
    {
        TargetHeatingCoolingState::Off
    }
}

impl TargetHeatingCoolingState {
    /// The number HomeKit uses for this state.
    pub open spec fn code_of(self) -> int {
        match self {
            TargetHeatingCoolingState::Off => 0,
            TargetHeatingCoolingState::Heat => 1,
            TargetHeatingCoolingState::Cool => 2,
            TargetHeatingCoolingState::Auto => 3,
        }
    }

    /// The state HomeKit's number `value` (`0..=3`) stands for.
    pub open spec fn of_code(value: int) -> TargetHeatingCoolingState {
        if value == 0 {
            TargetHeatingCoolingState::Off
        } else if value == 1 {
            TargetHeatingCoolingState::Heat
        } else if value == 2 {
            TargetHeatingCoolingState::Cool
        } else {
            TargetHeatingCoolingState::Auto
        }
    }

    /// The number HomeKit uses for this state.
    pub fn code(&self) -> (c: u8)
        ensures
            c == self.code_of(),
    {
        match self {
            TargetHeatingCoolingState::Off => 0,
            TargetHeatingCoolingState::Heat => 1,
            TargetHeatingCoolingState::Cool => 2,
            TargetHeatingCoolingState::Auto => 3,
        }
    }

    /// The state HomeKit's number `value` stands for; only `0..=3` name one.
    pub fn from_code(value: u8) -> (s: TargetHeatingCoolingState)
        requires
            value <= 3,
        ensures
            s == TargetHeatingCoolingState::of_code(value as int),
            s.code_of() == value,
    {
        match value {
            0 => TargetHeatingCoolingState::Off,
            1 => TargetHeatingCoolingState::Heat,
            2 => TargetHeatingCoolingState::Cool,
            _ => TargetHeatingCoolingState::Auto,
        }
    }

    /// The state a stored number stands for, unknown numbers reading as
    /// `Off`.
    pub open spec fn of_stored(raw: int) -> TargetHeatingCoolingState {
        if 0 <= raw <= 3 { TargetHeatingCoolingState::of_code(raw) } else { TargetHeatingCoolingState::Off }
    }

    /// The state a stored number stands for, unknown numbers reading as
    /// `Off`.
    pub fn decode(raw: u8) -> (s: TargetHeatingCoolingState)
        ensures
            s == TargetHeatingCoolingState::of_stored(raw as int),
    {
        match raw {
            1 => TargetHeatingCoolingState::Heat,
            2 => TargetHeatingCoolingState::Cool,
            3 => TargetHeatingCoolingState::Auto,
            _ => TargetHeatingCoolingState::Off,
        }
    }
}

/// The heating/cooling state of a thermostat from its regulation mode and
/// season (both absent fields read as their defaults: no mode, winter). A
/// thermostat switched off is `Off`; otherwise winter heats, whatever the
/// mode; in summer the automatic mode is `Auto` and any other mode cools.
pub open spec fn heating_cooling_of(auto_man: Option<ClimaMode>, season: Option<ThermoSeason>) -> TargetHeatingCoolingState {
    let mode = match auto_man { Some(m) => m, None => ClimaMode::NoMode };
    let winter = match season { Some(s) => s == ThermoSeason::Winter, None => true };
    if mode == ClimaMode::OffAuto || mode == ClimaMode::OffManual {
        TargetHeatingCoolingState::Off
    } else if winter {
        TargetHeatingCoolingState::Heat
    } else if mode == ClimaMode::Auto {
        TargetHeatingCoolingState::Auto
    } else {
        TargetHeatingCoolingState::Cool
    }
}

/// The heating/cooling state a thermostat report gives (see
/// [`heating_cooling_of`]).
pub fn heating_cooling_state(data: &ThermostatDeviceData) -> (s: TargetHeatingCoolingState)
    ensures
        s == heating_cooling_of(data.auto_man, data.season),
{
    let mode = match data.auto_man {
        Some(m) => m,
        None => ClimaMode::NoMode,
    };
    let winter = match data.season {
        Some(s) => s == ThermoSeason::Winter,
        None => true,
    };
    if mode == ClimaMode::OffAuto || mode == ClimaMode::OffManual {
        TargetHeatingCoolingState::Off
    } else if winter {
        TargetHeatingCoolingState::Heat
    } else if mode == ClimaMode::Auto {
        TargetHeatingCoolingState::Auto
    } else {
        TargetHeatingCoolingState::Cool
    }
}

/// A command the bridge sends to a thermostat of the hub.
#[derive(Debug, Clone, Copy, PartialEq, Eq, Structural)]
pub enum ThermostatCommand {
    /// Switch heating/cooling or humidity control on or off.
    ToggleStatus(ClimaOnOff),
    /// Change the regulation mode.
    SetMode(ClimaMode),
    /// Change the season.
    SetSeason(ThermoSeason),
}

/// The commands that set a thermostat to `new` when it was at `prev`, in the
/// order they are sent: first heating/cooling is switched off (for `Off`)
/// or on; leaving `Auto` for a state other than `Off` then selects the
/// manual mode; finally `Auto` selects the automatic mode, `Cool` summer and
/// `Heat` winter.
pub open spec fn hvac_mode_command_seq(prev: TargetHeatingCoolingState, new: TargetHeatingCoolingState) -> Seq<ThermostatCommand> {
    let toggle = seq![ThermostatCommand::ToggleStatus(
        if new == TargetHeatingCoolingState::Off { ClimaOnOff::OffThermo } else { ClimaOnOff::OnThermo },
    )];
    let leave_auto = if prev == TargetHeatingCoolingState::Auto && new != TargetHeatingCoolingState::Off {
        seq![ThermostatCommand::SetMode(ClimaMode::Manual)]
    } else {
        Seq::<ThermostatCommand>::empty()
    };
    let select = match new {
        TargetHeatingCoolingState::Auto => seq![ThermostatCommand::SetMode(ClimaMode::Auto)],
        TargetHeatingCoolingState::Cool => seq![ThermostatCommand::SetSeason(ThermoSeason::Summer)],
        TargetHeatingCoolingState::Heat => seq![ThermostatCommand::SetSeason(ThermoSeason::Winter)],
        TargetHeatingCoolingState::Off => Seq::<ThermostatCommand>::empty(),
    };
    toggle + leave_auto + select
}

/// The commands that set a thermostat to `new` when it was at `prev` (see
/// [`hvac_mode_command_seq`]).
pub fn hvac_mode_commands(prev: TargetHeatingCoolingState, new: TargetHeatingCoolingState) -> (v: Vec<ThermostatCommand>)
    ensures
        v@ == hvac_mode_command_seq(prev, new),
{
    let mut v: Vec<ThermostatCommand> = Vec::new();
    let toggle = if new == TargetHeatingCoolingState::Off { ClimaOnOff::OffThermo } else { ClimaOnOff::OnThermo };
    v.push(ThermostatCommand::ToggleStatus(toggle));
    if prev == TargetHeatingCoolingState::Auto && new != TargetHeatingCoolingState::Off {
        v.push(ThermostatCommand::SetMode(ClimaMode::Manual));
    }
    match new {
        TargetHeatingCoolingState::Auto => v.push(ThermostatCommand::SetMode(ClimaMode::Auto)),
        TargetHeatingCoolingState::Cool => v.push(ThermostatCommand::SetSeason(ThermoSeason::Summer)),
        TargetHeatingCoolingState::Heat => v.push(ThermostatCommand::SetSeason(ThermoSeason::Winter)),
        TargetHeatingCoolingState::Off => {},
    }
    assert(v@ =~= hvac_mode_command_seq(prev, new));
    v
}

/// The heating/cooling part of a thermostat's state.
#[derive(Debug, Clone, Copy, PartialEq, Eq, Structural)]
pub struct HvacModes {
    pub heating_cooling_state: TargetHeatingCoolingState,
    pub target_heating_cooling_state: TargetHeatingCoolingState,
}

/// The heating/cooling state after a request for `new`, and whether the
/// sink is told: when the on/off toggle (the first command) succeeded, both
/// the current and the target state become `new` and the sink is told;
/// otherwise nothing changes and the sink is not told. Failures of the later
/// commands are only logged.
pub open spec fn hvac_modes_after(modes: HvacModes, new: TargetHeatingCoolingState, toggle_ok: bool) -> (HvacModes, bool) {
    if toggle_ok {
        (HvacModes { heating_cooling_state: new, target_heating_cooling_state: new }, true)
    } else {
        (modes, false)
    }
}

/// The heating/cooling state after a request for `new` (see
/// [`hvac_modes_after`]).
pub fn hvac_modes_after_request(modes: HvacModes, new: TargetHeatingCoolingState, toggle_ok: bool) -> (r: (HvacModes, bool))
    ensures
        r == hvac_modes_after(modes, new, toggle_ok),
{
    if toggle_ok {
        (HvacModes { heating_cooling_state: new, target_heating_cooling_state: new }, true)
    } else {
        (modes, false)
    }
}

/// Instance ids of the services of a thermostat accessory: the accessory
/// information service starts at 1 and has `info_len` characteristics; the
/// thermostat service follows it, and a dehumidifier service (when there is
/// one) follows the thermostat's `thermostat_len` characteristics.
pub fn thermostat_service_iids(info_len: u64, thermostat_len: u64, has_dehumidifier: bool) -> (r: (u64, Option<u64>))
    requires
        info_len + thermostat_len + 3 <= u64::MAX,
    ensures
        r.0 == info_len + 2,
        has_dehumidifier ==> r.1 == Some((info_len + thermostat_len + 3) as u64),
        !has_dehumidifier ==> r.1 == None::<u64>,
{
    let thermostat = 1 + info_len + 1;
    let dehumidifier = if has_dehumidifier { Some(thermostat + thermostat_len + 1) } else { None };
    (thermostat, dehumidifier)
}

/// Setting a thermostat never leaves it in the state it came from by
/// accident: the commands always begin with the on/off toggle matching the
/// requested state, select the requested season or mode exactly when one is
/// requested, and only an `Off` request sends no more than that toggle.
pub proof fn lemma_hvac_commands_shape(prev: TargetHeatingCoolingState, new: TargetHeatingCoolingState)
    ensures
        hvac_mode_command_seq(prev, new).len() >= 1,
        hvac_mode_command_seq(prev, new)[0] == ThermostatCommand::ToggleStatus(
            if new == TargetHeatingCoolingState::Off { ClimaOnOff::OffThermo } else { ClimaOnOff::OnThermo },
        ),
        new == TargetHeatingCoolingState::Off ==> hvac_mode_command_seq(prev, new).len() == 1,
        new == TargetHeatingCoolingState::Heat ==>
            hvac_mode_command_seq(prev, new).last() == ThermostatCommand::SetSeason(ThermoSeason::Winter),
        new == TargetHeatingCoolingState::Cool ==>
            hvac_mode_command_seq(prev, new).last() == ThermostatCommand::SetSeason(ThermoSeason::Summer),
        new == TargetHeatingCoolingState::Auto ==>
            hvac_mode_command_seq(prev, new).last() == ThermostatCommand::SetMode(ClimaMode::Auto),
        (prev == TargetHeatingCoolingState::Auto && new != TargetHeatingCoolingState::Off) <==>
            hvac_mode_command_seq(prev, new).contains(ThermostatCommand::SetMode(ClimaMode::Manual)),
{
    let s = hvac_mode_command_seq(prev, new);
    if prev == TargetHeatingCoolingState::Auto && new != TargetHeatingCoolingState::Off {
        assert(s[1] == ThermostatCommand::SetMode(ClimaMode::Manual));
    } else {
        assert forall|i: int| 0 <= i < s.len() implies s[i] != ThermostatCommand::SetMode(ClimaMode::Manual) by {}
    }
}

/// The number HomeKit uses for a heating/cooling state reads back as that
/// state, both through the checked and the lenient decoding.
pub proof fn lemma_hvac_code_round_trip(s: TargetHeatingCoolingState)
    ensures
        TargetHeatingCoolingState::of_code(s.code_of()) == s,
        TargetHeatingCoolingState::of_stored(s.code_of()) == s,
        0 <= s.code_of() <= 3,
{
}

/// How a thermostat report reads: switched off (automatic or manual off
/// mode) it is `Off` whatever the season; otherwise in winter (or with no
/// season reported) it heats, whatever the mode; in summer the automatic
/// mode is `Auto` and every other mode cools.
pub proof fn lemma_heating_cooling_reading(auto_man: Option<ClimaMode>, season: Option<ThermoSeason>)
    ensures
        (auto_man == Some(ClimaMode::OffAuto) || auto_man == Some(ClimaMode::OffManual))
            ==> heating_cooling_of(auto_man, season) == TargetHeatingCoolingState::Off,
        !(auto_man == Some(ClimaMode::OffAuto) || auto_man == Some(ClimaMode::OffManual))
            && season != Some(ThermoSeason::Summer)
            ==> heating_cooling_of(auto_man, season) == TargetHeatingCoolingState::Heat,
        season == Some(ThermoSeason::Summer) && auto_man == Some(ClimaMode::Auto)
            ==> heating_cooling_of(auto_man, season) == TargetHeatingCoolingState::Auto,
        season == Some(ThermoSeason::Summer)
            && !(auto_man == Some(ClimaMode::OffAuto) || auto_man == Some(ClimaMode::OffManual) || auto_man == Some(ClimaMode::Auto))
            ==> heating_cooling_of(auto_man, season) == TargetHeatingCoolingState::Cool,
{
}

} // verus!

//! Codes used by the Comelit hub to describe devices and actions.
use vstd::prelude::*;
use crate::text::{digit_str, digit_text};

verus! {

/// The single decimal digit a text holds, or `-1` when the text is not
/// exactly one ASCII digit.
pub open spec fn digit_value(s: Seq<char>) -> int {
    if s.len() == 1 && '0' <= s[0] && s[0] <= '9' {
        (s[0] as int) - ('0' as int)
    } else {
        -1
    }
}

/// Reads a one-digit status text such as `"2"`.
pub fn parse_digit(s: &str) -> (r: i32)
    ensures
        r == digit_value(s@),
{
    let n = s.unicode_len();
    if n != 1 {
        return -1;
    }
    let c = s.get_char(0);
    if '0' <= c && c <= '9' {
        (c as u32 - '0' as u32) as i32
    } else {
        -1
    }
}


/// The kind of object an entry of the hub's device index describes.
#[derive(Debug, Clone, Copy, PartialEq, Eq, Hash, Structural)]
pub enum ObjectType {
    Other,
    WindowCovering,
    Light,
    Irrigation,
    Thermostat,
    Outlet,
    PowerSupplier,
    Agent,
    Zone,
    VipElement,
    Door,
    Unknown,
}

impl ObjectType {
    /// The number the hub uses for this value.
    pub open spec fn code_of(self) -> int {
        match self {
            ObjectType::Other => 1,
            ObjectType::WindowCovering => 2,
            ObjectType::Light => 3,
            ObjectType::Irrigation => 4,
            ObjectType::Thermostat => 9,
            ObjectType::Outlet => 10,
            ObjectType::PowerSupplier => 11,
            ObjectType::Agent => 13,
            ObjectType::Zone => 1001,
            ObjectType::VipElement => 2000,
            ObjectType::Door => 2001,
            ObjectType::Unknown => -1,
        }
    }

    /// The value a number stands for; numbers the hub does not define read as `Unknown`.
    pub open spec fn of_code(code: int) -> ObjectType {
        if code == 1 {
            ObjectType::Other
        } else if code == 2 {
            ObjectType::WindowCovering
        } else if code == 3 {
            ObjectType::Light
        } else if code == 4 {
            ObjectType::Irrigation
        } else if code == 9 {
            ObjectType::Thermostat
        } else if code == 10 {
            ObjectType::Outlet
        } else if code == 11 {
            ObjectType::PowerSupplier
        } else if code == 13 {
            ObjectType::Agent
        } else if code == 1001 {
            ObjectType::Zone
        } else if code == 2000 {
            ObjectType::VipElement
        } else if code == 2001 {
            ObjectType::Door
        } else if code == -1 {
            ObjectType::Unknown
        } else {
            ObjectType::Unknown
        }
    }

    /// The number the hub uses for this value.
    pub fn code(&self) -> (c: i32)
        ensures
            c == self.code_of(),
    {
        match self {
            ObjectType::Other => 1,
            ObjectType::WindowCovering => 2,
            ObjectType::Light => 3,
            ObjectType::Irrigation => 4,
            ObjectType::Thermostat => 9,
            ObjectType::Outlet => 10,
            ObjectType::PowerSupplier => 11,
            ObjectType::Agent => 13,
            ObjectType::Zone => 1001,
            ObjectType::VipElement => 2000,
            ObjectType::Door => 2001,
            ObjectType::Unknown => -1,
        }
    }

    /// The value a number stands for; numbers the hub does not define read as `Unknown`.
    pub fn from_code(code: i32) -> (r: ObjectType)
        ensures
            r == ObjectType::of_code(code as int),
    {
        match code {
            1 => ObjectType::Other,
            2 => ObjectType::WindowCovering,
            3 => ObjectType::Light,
            4 => ObjectType::Irrigation,
            9 => ObjectType::Thermostat,
            10 => ObjectType::Outlet,
            11 => ObjectType::PowerSupplier,
            13 => ObjectType::Agent,
            1001 => ObjectType::Zone,
            2000 => ObjectType::VipElement,
            2001 => ObjectType::Door,
            -1 => ObjectType::Unknown,
            _ => ObjectType::Unknown,
        }
    }

}

/// The sub-kind of an object of the hub's device index.
#[derive(Debug, Clone, Copy, PartialEq, Eq, Hash, Structural)]
pub enum ObjectSubtype {
    Unknown,
    Generic,
    DigitalLight,
    RgbLight,
    TemporizedLight,
    DimmerLight,
    OtherDigit,
    OtherTmp,
    ElectricBlind,
    ClimaTerm,
    GenericZone,
    Consumption,
    ClimaThermostatDehumidifier,
    ClimaDehumidifier,
    Door,
    EnhancedElectricBlind,
}

impl ObjectSubtype {
    /// The number the hub uses for this value.
    pub open spec fn code_of(self) -> int {
        match self {
            ObjectSubtype::Unknown => -1,
            ObjectSubtype::Generic => 0,
            ObjectSubtype::DigitalLight => 1,
            ObjectSubtype::RgbLight => 2,
            ObjectSubtype::TemporizedLight => 3,
            ObjectSubtype::DimmerLight => 4,
            ObjectSubtype::OtherDigit => 5,
            ObjectSubtype::OtherTmp => 6,
            ObjectSubtype::ElectricBlind => 7,
            ObjectSubtype::ClimaTerm => 12,
            ObjectSubtype::GenericZone => 13,
            ObjectSubtype::Consumption => 15,
            ObjectSubtype::ClimaThermostatDehumidifier => 16,
            ObjectSubtype::ClimaDehumidifier => 17,
            ObjectSubtype::Door => 23,
            ObjectSubtype::EnhancedElectricBlind => 31,
        }
    }

    /// The value a number stands for; numbers the hub does not define read as `Generic`.
    pub open spec fn of_code(code: int) -> ObjectSubtype {
        if code == -1 {
            ObjectSubtype::Unknown
        } else if code == 0 {
            ObjectSubtype::Generic
        } else if code == 1 {
            ObjectSubtype::DigitalLight
        } else if code == 2 {
            ObjectSubtype::RgbLight
        } else if code == 3 {
            ObjectSubtype::TemporizedLight
        } else if code == 4 {
            ObjectSubtype::DimmerLight
        } else if code == 5 {
            ObjectSubtype::OtherDigit
        } else if code == 6 {
            ObjectSubtype::OtherTmp
        } else if code == 7 {
            ObjectSubtype::ElectricBlind
        } else if code == 12 {
            ObjectSubtype::ClimaTerm
        } else if code == 13 {
            ObjectSubtype::GenericZone
        } else if code == 15 {
            ObjectSubtype::Consumption
        } else if code == 16 {
            ObjectSubtype::ClimaThermostatDehumidifier
        } else if code == 17 {
            ObjectSubtype::ClimaDehumidifier
        } else if code == 23 {
            ObjectSubtype::Door
        } else if code == 31 {
            ObjectSubtype::EnhancedElectricBlind
        } else {
            ObjectSubtype::Generic
        }
    }

    /// The number the hub uses for this value.
    pub fn code(&self) -> (c: i32)
        ensures
            c == self.code_of(),
    {
        match self {
            ObjectSubtype::Unknown => -1,
            ObjectSubtype::Generic => 0,
            ObjectSubtype::DigitalLight => 1,
            ObjectSubtype::RgbLight => 2,
            ObjectSubtype::TemporizedLight => 3,
            ObjectSubtype::DimmerLight => 4,
            ObjectSubtype::OtherDigit => 5,
            ObjectSubtype::OtherTmp => 6,
            ObjectSubtype::ElectricBlind => 7,
            ObjectSubtype::ClimaTerm => 12,
            ObjectSubtype::GenericZone => 13,
            ObjectSubtype::Consumption => 15,
            ObjectSubtype::ClimaThermostatDehumidifier => 16,
            ObjectSubtype::ClimaDehumidifier => 17,
            ObjectSubtype::Door => 23,
            ObjectSubtype::EnhancedElectricBlind => 31,
        }
    }

    /// The value a number stands for; numbers the hub does not define read as `Generic`.
    pub fn from_code(code: i32) -> (r: ObjectSubtype)
        ensures
            r == ObjectSubtype::of_code(code as int),
    {
        match code {
            -1 => ObjectSubtype::Unknown,
            0 => ObjectSubtype::Generic,
            1 => ObjectSubtype::DigitalLight,
            2 => ObjectSubtype::RgbLight,
            3 => ObjectSubtype::TemporizedLight,
            4 => ObjectSubtype::DimmerLight,
            5 => ObjectSubtype::OtherDigit,
            6 => ObjectSubtype::OtherTmp,
            7 => ObjectSubtype::ElectricBlind,
            12 => ObjectSubtype::ClimaTerm,
            13 => ObjectSubtype::GenericZone,
            15 => ObjectSubtype::Consumption,
            16 => ObjectSubtype::ClimaThermostatDehumidifier,
            17 => ObjectSubtype::ClimaDehumidifier,
            23 => ObjectSubtype::Door,
            31 => ObjectSubtype::EnhancedElectricBlind,
            _ => ObjectSubtype::Generic,
        }
    }

}

/// The season a thermostat runs in (summer cools, winter heats).
#[derive(Debug, Clone, Copy, PartialEq, Eq, Hash, Structural)]
pub enum ThermoSeason {
    Summer,
    Winter,
}

impl ThermoSeason {
    /// The number the hub uses for this value.
    pub open spec fn code_of(self) -> int {
        match self {
            ThermoSeason::Summer => 0,
            ThermoSeason::Winter => 1,
        }
    }

    /// The value a number stands for; numbers the hub does not define read as `Summer`.
    pub open spec fn of_code(code: int) -> ThermoSeason {
        if code == 0 {
            ThermoSeason::Summer
        } else if code == 1 {
            ThermoSeason::Winter
        } else {
            ThermoSeason::Summer
        }
    }

    /// The number the hub uses for this value.
    pub fn code(&self) -> (c: i32)
        ensures
            c == self.code_of(),
    {
        match self {
            ThermoSeason::Summer => 0,
            ThermoSeason::Winter => 1,
        }
    }

    /// The value a number stands for; numbers the hub does not define read as `Summer`.
    pub fn from_code(code: i32) -> (r: ThermoSeason)
        ensures
            r == ThermoSeason::of_code(code as int),
    {
        match code {
            0 => ThermoSeason::Summer,
            1 => ThermoSeason::Winter,
            _ => ThermoSeason::Summer,
        }
    }

    /// The value a status text such as `"1"` stands for; any other text reads as `Summer`.
    pub fn from_text(s: &str) -> (r: ThermoSeason)
        ensures
            r == ThermoSeason::of_code(digit_value(s@)),
    {
        let d = parse_digit(s);
        ThermoSeason::from_code_i32(d)
    }

    fn from_code_i32(code: i32) -> (r: ThermoSeason)
        ensures
            r == ThermoSeason::of_code(code as int),
    {
        ThermoSeason::from_code(code)
    }

    /// The status text of this value: its code as one decimal digit.
    pub fn as_text(&self) -> (s: &'static str)
        ensures
            s@ == digit_text(self.code_of()),
    {
        let c = self.code();
        digit_str(c as u8)
    }

}

impl Default for ThermoSeason {
    fn default() -> (r: ThermoSeason)
        ensures
            r == ThermoSeason::Winter,
    {
        ThermoSeason::Winter
    }
}

/// The regulation mode of a thermostat or of its dehumidifier.
#[derive(Debug, Clone, Copy, PartialEq, Eq, Hash, Structural)]
pub enum ClimaMode {
    NoMode,
    Auto,
    Manual,
    SemiAuto,
    SemiMan,
    OffAuto,
    OffManual,
}

impl ClimaMode {
    /// The number the hub uses for this value.
    pub open spec fn code_of(self) -> int {
        match self {
            ClimaMode::NoMode => 0,
            ClimaMode::Auto => 1,
            ClimaMode::Manual => 2,
            ClimaMode::SemiAuto => 3,
            ClimaMode::SemiMan => 4,
            ClimaMode::OffAuto => 5,
            ClimaMode::OffManual => 6,
        }
    }

    /// The value a number stands for; numbers the hub does not define read as `NoMode`.
    pub open spec fn of_code(code: int) -> ClimaMode {
        if code == 0 {
            ClimaMode::NoMode
        } else if code == 1 {
            ClimaMode::Auto
        } else if code == 2 {
            ClimaMode::Manual
        } else if code == 3 {
            ClimaMode::SemiAuto
        } else if code == 4 {
            ClimaMode::SemiMan
        } else if code == 5 {
            ClimaMode::OffAuto
        } else if code == 6 {
            ClimaMode::OffManual
        } else {
            ClimaMode::NoMode
        }
    }

    /// The number the hub uses for this value.
    pub fn code(&self) -> (c: i32)
        ensures
            c == self.code_of(),
    {
        match self {
            ClimaMode::NoMode => 0,
            ClimaMode::Auto => 1,
            ClimaMode::Manual => 2,
            ClimaMode::SemiAuto => 3,
            ClimaMode::SemiMan => 4,
            ClimaMode::OffAuto => 5,
            ClimaMode::OffManual => 6,
        }
    }

    /// The value a number stands for; numbers the hub does not define read as `NoMode`.
    pub fn from_code(code: i32) -> (r: ClimaMode)
        ensures
            r == ClimaMode::of_code(code as int),
    {
        match code {
            0 => ClimaMode::NoMode,
            1 => ClimaMode::Auto,
            2 => ClimaMode::Manual,
            3 => ClimaMode::SemiAuto,
            4 => ClimaMode::SemiMan,
            5 => ClimaMode::OffAuto,
            6 => ClimaMode::OffManual,
            _ => ClimaMode::NoMode,
        }
    }

    /// The value a status text such as `"1"` stands for; any other text reads as `None`.
    pub fn from_text(s: &str) -> (r: ClimaMode)
        ensures
            r == ClimaMode::of_code(digit_value(s@)),
    {
        let d = parse_digit(s);
        ClimaMode::from_code_i32(d)
    }

    fn from_code_i32(code: i32) -> (r: ClimaMode)
        ensures
            r == ClimaMode::of_code(code as int),
    {
        ClimaMode::from_code(code)
    }

    /// The status text of this value: its code as one decimal digit.
    pub fn as_text(&self) -> (s: &'static str)
        ensures
            s@ == digit_text(self.code_of()),
    {
        let c = self.code();
        digit_str(c as u8)
    }

}

impl Default for ClimaMode {
    fn default() -> (r: ClimaMode)
        ensures
            r == ClimaMode::NoMode,
    {
        ClimaMode::NoMode
    }
}

/// The on/off commands a thermostat accepts, for heating/cooling and for humidity.
#[derive(Debug, Clone, Copy, PartialEq, Eq, Hash, Structural)]
pub enum ClimaOnOff {
    OffThermo,
    OnThermo,
    OffHumi,
    OnHumi,
    Off,
    On,
}

impl ClimaOnOff {
    /// The number the hub uses for this value.
    pub open spec fn code_of(self) -> int {
        match self {
            ClimaOnOff::OffThermo => 0,
            ClimaOnOff::OnThermo => 1,
            ClimaOnOff::OffHumi => 2,
            ClimaOnOff::OnHumi => 3,
            ClimaOnOff::Off => 4,
            ClimaOnOff::On => 5,
        }
    }

    /// The value a number stands for; numbers the hub does not define read as `Off`.
    pub open spec fn of_code(code: int) -> ClimaOnOff {
        if code == 0 {
            ClimaOnOff::OffThermo
        } else if code == 1 {
            ClimaOnOff::OnThermo
        } else if code == 2 {
            ClimaOnOff::OffHumi
        } else if code == 3 {
            ClimaOnOff::OnHumi
        } else if code == 4 {
            ClimaOnOff::Off
        } else if code == 5 {
            ClimaOnOff::On
        } else {
            ClimaOnOff::Off
        }
    }

    /// The number the hub uses for this value.
    pub fn code(&self) -> (c: i32)
        ensures
            c == self.code_of(),
    {
        match self {
            ClimaOnOff::OffThermo => 0,
            ClimaOnOff::OnThermo => 1,
            ClimaOnOff::OffHumi => 2,
            ClimaOnOff::OnHumi => 3,
            ClimaOnOff::Off => 4,
            ClimaOnOff::On => 5,
        }
    }

    /// The value a number stands for; numbers the hub does not define read as `Off`.
    pub fn from_code(code: i32) -> (r: ClimaOnOff)
        ensures
            r == ClimaOnOff::of_code(code as int),
    {
        match code {
            0 => ClimaOnOff::OffThermo,
            1 => ClimaOnOff::OnThermo,
            2 => ClimaOnOff::OffHumi,
            3 => ClimaOnOff::OnHumi,
            4 => ClimaOnOff::Off,
            5 => ClimaOnOff::On,
            _ => ClimaOnOff::Off,
        }
    }

    /// The value a status text such as `"1"` stands for; any other text reads as `Off`.
    pub fn from_text(s: &str) -> (r: ClimaOnOff)
        ensures
            r == ClimaOnOff::of_code(digit_value(s@)),
    {
        let d = parse_digit(s);
        ClimaOnOff::from_code_i32(d)
    }

    fn from_code_i32(code: i32) -> (r: ClimaOnOff)
        ensures
            r == ClimaOnOff::of_code(code as int),
    {
        ClimaOnOff::from_code(code)
    }

    /// The status text of this value: its code as one decimal digit.
    pub fn as_text(&self) -> (s: &'static str)
        ensures
            s@ == digit_text(self.code_of()),
    {
        let c = self.code();
        digit_str(c as u8)
    }

}

impl Default for ClimaOnOff {
    fn default() -> (r: ClimaOnOff)
        ensures
            r == ClimaOnOff::Off,
    {
        ClimaOnOff::Off
    }
}

/// The kind of an action request sent to the hub.
#[derive(Debug, Clone, Copy, PartialEq, Eq, Hash, Structural)]
pub enum ActionType {
    SetState,
    ClimaMode,
    ClimaSetPoint,
    SwitchSeason,
    SwitchClimaMode,
    UmiSetpoint,
    SwitchUmiMode,
    SetBlindPosition,
}

impl ActionType {
    /// The number the hub uses for this value.
    pub open spec fn code_of(self) -> int {
        match self {
            ActionType::SetState => 0,
            ActionType::ClimaMode => 1,
            ActionType::ClimaSetPoint => 2,
            ActionType::SwitchSeason => 4,
            ActionType::SwitchClimaMode => 13,
            ActionType::UmiSetpoint => 19,
            ActionType::SwitchUmiMode => 23,
            ActionType::SetBlindPosition => 52,
        }
    }

    /// The value a number stands for; numbers the hub does not define read as `SetState`.
    pub open spec fn of_code(code: int) -> ActionType {
        if code == 0 {
            ActionType::SetState
        } else if code == 1 {
            ActionType::ClimaMode
        } else if code == 2 {
            ActionType::ClimaSetPoint
        } else if code == 4 {
            ActionType::SwitchSeason
        } else if code == 13 {
            ActionType::SwitchClimaMode
        } else if code == 19 {
            ActionType::UmiSetpoint
        } else if code == 23 {
            ActionType::SwitchUmiMode
        } else if code == 52 {
            ActionType::SetBlindPosition
        } else {
            ActionType::SetState
        }
    }

    /// The number the hub uses for this value.
    pub fn code(&self) -> (c: i32)
        ensures
            c == self.code_of(),
    {
        match self {
            ActionType::SetState => 0,
            ActionType::ClimaMode => 1,
            ActionType::ClimaSetPoint => 2,
            ActionType::SwitchSeason => 4,
            ActionType::SwitchClimaMode => 13,
            ActionType::UmiSetpoint => 19,
            ActionType::SwitchUmiMode => 23,
            ActionType::SetBlindPosition => 52,
        }
    }

    /// The value a number stands for; numbers the hub does not define read as `SetState`.
    pub fn from_code(code: i32) -> (r: ActionType)
        ensures
            r == ActionType::of_code(code as int),
    {
        match code {
            0 => ActionType::SetState,
            1 => ActionType::ClimaMode,
            2 => ActionType::ClimaSetPoint,
            4 => ActionType::SwitchSeason,
            13 => ActionType::SwitchClimaMode,
            19 => ActionType::UmiSetpoint,
            23 => ActionType::SwitchUmiMode,
            52 => ActionType::SetBlindPosition,
            _ => ActionType::SetState,
        }
    }

}

/// The movement a window covering reports.
#[derive(Debug, Clone, Copy, PartialEq, Eq, Hash, Structural)]
pub enum WindowCoveringStatus {
    Stopped,
    GoingUp,
    GoingDown,
}

impl WindowCoveringStatus {
    /// The number the hub uses for this value.
    pub open spec fn code_of(self) -> int {
        match self {
            WindowCoveringStatus::Stopped => 0,
            WindowCoveringStatus::GoingUp => 1,
            WindowCoveringStatus::GoingDown => 2,
        }
    }

    /// The value a number stands for; numbers the hub does not define read as `Stopped`.
    pub open spec fn of_code(code: int) -> WindowCoveringStatus {
        if code == 0 {
            WindowCoveringStatus::Stopped
        } else if code == 1 {
            WindowCoveringStatus::GoingUp
        } else if code == 2 {
            WindowCoveringStatus::GoingDown
        } else {
            WindowCoveringStatus::Stopped
        }
    }

    /// The number the hub uses for this value.
    pub fn code(&self) -> (c: u8)
        ensures
            c == self.code_of(),
    {
        match self {
            WindowCoveringStatus::Stopped => 0,
            WindowCoveringStatus::GoingUp => 1,
            WindowCoveringStatus::GoingDown => 2,
        }
    }

    /// The value a number stands for; numbers the hub does not define read as `Stopped`.
    pub fn from_code(code: u8) -> (r: WindowCoveringStatus)
        ensures
            r == WindowCoveringStatus::of_code(code as int),
    {
        match code {
            0 => WindowCoveringStatus::Stopped,
            1 => WindowCoveringStatus::GoingUp,
            2 => WindowCoveringStatus::GoingDown,
            _ => WindowCoveringStatus::Stopped,
        }
    }

    /// The value a status text such as `"1"` stands for; any other text reads as `Stopped`.
    pub fn from_text(s: &str) -> (r: WindowCoveringStatus)
        ensures
            r == WindowCoveringStatus::of_code(digit_value(s@)),
    {
        let d = parse_digit(s);
        WindowCoveringStatus::from_code_i32(d)
    }

    fn from_code_i32(code: i32) -> (r: WindowCoveringStatus)
        ensures
            r == WindowCoveringStatus::of_code(code as int),
    {
        match code {
            0 => WindowCoveringStatus::Stopped,
            1 => WindowCoveringStatus::GoingUp,
            2 => WindowCoveringStatus::GoingDown,
            _ => WindowCoveringStatus::Stopped,
        }
    }

    /// The status text of this value: its code as one decimal digit.
    pub fn as_text(&self) -> (s: &'static str)
        ensures
            s@ == digit_text(self.code_of()),
    {
        let c = self.code();
        digit_str(c as u8)
    }

}

impl Default for WindowCoveringStatus {
    fn default() -> (r: WindowCoveringStatus)
        ensures
            r == WindowCoveringStatus::Stopped,
    {
        WindowCoveringStatus::Stopped
    }
}

/// The on/off status a device reports.
#[derive(Debug, Clone, Copy, PartialEq, Eq, Hash, Structural)]
pub enum DeviceStatus {
    Off,
    On,
    Running,
}

impl DeviceStatus {
    /// The number the hub uses for this value.
    pub open spec fn code_of(self) -> int {
        match self {
            DeviceStatus::Off => 0,
            DeviceStatus::On => 1,
            DeviceStatus::Running => 2,
        }
    }

    /// The value a number stands for; numbers the hub does not define read as `Off`.
    pub open spec fn of_code(code: int) -> DeviceStatus {
        if code == 0 {
            DeviceStatus::Off
        } else if code == 1 {
            DeviceStatus::On
        } else if code == 2 {
            DeviceStatus::Running
        } else {
            DeviceStatus::Off
        }
    }

    /// The number the hub uses for this value.
    pub fn code(&self) -> (c: u8)
        ensures
            c == self.code_of(),
    {
        match self {
            DeviceStatus::Off => 0,
            DeviceStatus::On => 1,
            DeviceStatus::Running => 2,
        }
    }

    /// The value a number stands for; numbers the hub does not define read as `Off`.
    pub fn from_code(code: u8) -> (r: DeviceStatus)
        ensures
            r == DeviceStatus::of_code(code as int),
    {
        match code {
            0 => DeviceStatus::Off,
            1 => DeviceStatus::On,
            2 => DeviceStatus::Running,
            _ => DeviceStatus::Off,
        }
    }

    /// The value a status text such as `"1"` stands for; any other text reads as `Off`.
    pub fn from_text(s: &str) -> (r: DeviceStatus)
        ensures
            r == DeviceStatus::of_code(digit_value(s@)),
    {
        let d = parse_digit(s);
        DeviceStatus::from_code_i32(d)
    }

    fn from_code_i32(code: i32) -> (r: DeviceStatus)
        ensures
            r == DeviceStatus::of_code(code as int),
    {
        match code {
            0 => DeviceStatus::Off,
            1 => DeviceStatus::On,
            2 => DeviceStatus::Running,
            _ => DeviceStatus::Off,
        }
    }

    /// The status text of this value: its code as one decimal digit.
    pub fn as_text(&self) -> (s: &'static str)
        ensures
            s@ == digit_text(self.code_of()),
    {
        let c = self.code();
        digit_str(c as u8)
    }

}

impl Default for DeviceStatus {
    fn default() -> (r: DeviceStatus)
        ensures
            r == DeviceStatus::Off,
    {
        DeviceStatus::Off
    }
}

/// The power status a device reports.
#[derive(Debug, Clone, Copy, PartialEq, Eq, Hash, Structural)]
pub enum PowerStatus {
    Stopped,
    Off,
    On,
}

impl PowerStatus {
    /// The number the hub uses for this value.
    pub open spec fn code_of(self) -> int {
        match self {
            PowerStatus::Stopped => 0,
            PowerStatus::Off => 1,
            PowerStatus::On => 2,
        }
    }

    /// The value a number stands for; numbers the hub does not define read as `Stopped`.
    pub open spec fn of_code(code: int) -> PowerStatus {
        if code == 0 {
            PowerStatus::Stopped
        } else if code == 1 {
            PowerStatus::Off
        } else if code == 2 {
            PowerStatus::On
        } else {
            PowerStatus::Stopped
        }
    }

    /// The number the hub uses for this value.
    pub fn code(&self) -> (c: u8)
        ensures
            c == self.code_of(),
    {
        match self {
            PowerStatus::Stopped => 0,
            PowerStatus::Off => 1,
            PowerStatus::On => 2,
        }
    }

    /// The value a number stands for; numbers the hub does not define read as `Stopped`.
    pub fn from_code(code: u8) -> (r: PowerStatus)
        ensures
            r == PowerStatus::of_code(code as int),
    {
        match code {
            0 => PowerStatus::Stopped,
            1 => PowerStatus::Off,
            2 => PowerStatus::On,
            _ => PowerStatus::Stopped,
        }
    }

    /// The value a status text such as `"1"` stands for; any other text reads as `Stopped`.
    pub fn from_text(s: &str) -> (r: PowerStatus)
        ensures
            r == PowerStatus::of_code(digit_value(s@)),
    {
        let d = parse_digit(s);
        PowerStatus::from_code_i32(d)
    }

    fn from_code_i32(code: i32) -> (r: PowerStatus)
        ensures
            r == PowerStatus::of_code(code as int),
    {
        match code {
            0 => PowerStatus::Stopped,
            1 => PowerStatus::Off,
            2 => PowerStatus::On,
            _ => PowerStatus::Stopped,
        }
    }

    /// The status text of this value: its code as one decimal digit.
    pub fn as_text(&self) -> (s: &'static str)
        ensures
            s@ == digit_text(self.code_of()),
    {
        let c = self.code();
        digit_str(c as u8)
    }

}

impl Default for PowerStatus {
    fn default() -> (r: PowerStatus)
        ensures
            r == PowerStatus::Stopped,
    {
        PowerStatus::Stopped
    }
}

/// Whether a device reports itself open or closed.
#[derive(Debug, Clone, Copy, PartialEq, Eq, Hash, Structural)]
pub enum OpenStatus {
    Closed,
    Open,
}

impl OpenStatus {
    /// The number the hub uses for this value.
    pub open spec fn code_of(self) -> int {
        match self {
            OpenStatus::Closed => 0,
            OpenStatus::Open => 1,
        }
    }

    /// The value a number stands for; numbers the hub does not define read as `Open`.
    pub open spec fn of_code(code: int) -> OpenStatus {
        if code == 0 {
            OpenStatus::Closed
        } else if code == 1 {
            OpenStatus::Open
        } else {
            OpenStatus::Open
        }
    }

    /// The number the hub uses for this value.
    pub fn code(&self) -> (c: u8)
        ensures
            c == self.code_of(),
    {
        match self {
            OpenStatus::Closed => 0,
            OpenStatus::Open => 1,
        }
    }

    /// The value a number stands for; numbers the hub does not define read as `Open`.
    pub fn from_code(code: u8) -> (r: OpenStatus)
        ensures
            r == OpenStatus::of_code(code as int),
    {
        match code {
            0 => OpenStatus::Closed,
            1 => OpenStatus::Open,
            _ => OpenStatus::Open,
        }
    }

    /// The value a status text such as `"1"` stands for; any other text reads as `Open`.
    pub fn from_text(s: &str) -> (r: OpenStatus)
        ensures
            r == OpenStatus::of_code(digit_value(s@)),
    {
        let d = parse_digit(s);
        OpenStatus::from_code_i32(d)
    }

    fn from_code_i32(code: i32) -> (r: OpenStatus)
        ensures
            r == OpenStatus::of_code(code as int),
    {
        match code {
            0 => OpenStatus::Closed,
            1 => OpenStatus::Open,
            _ => OpenStatus::Open,
        }
    }

    /// The status text of this value: its code as one decimal digit.
    pub fn as_text(&self) -> (s: &'static str)
        ensures
            s@ == digit_text(self.code_of()),
    {
        let c = self.code();
        digit_str(c as u8)
    }

}

impl Default for OpenStatus {
    fn default() -> (r: OpenStatus)
        ensures
            r == OpenStatus::Open,
    {
        OpenStatus::Open
    }
}

/// A digit's text reads back as that digit.
pub proof fn lemma_digit_text_reads_back(d: int)
    requires
        0 <= d <= 9,
    ensures
        digit_value(digit_text(d)) == d,
{
}

/// Every code the hub uses reads back as the value it was written for.
pub proof fn lemma_codes_read_back(
    t: ObjectType,
    st: ObjectSubtype,
    season: ThermoSeason,
    mode: ClimaMode,
    onoff: ClimaOnOff,
    action: ActionType,
    wcs: WindowCoveringStatus,
    ds: DeviceStatus,
    ps: PowerStatus,
    os: OpenStatus,
)
    ensures
        ObjectType::of_code(t.code_of()) == t,
        ObjectSubtype::of_code(st.code_of()) == st,
        ThermoSeason::of_code(season.code_of()) == season,
        ClimaMode::of_code(mode.code_of()) == mode,
        ClimaOnOff::of_code(onoff.code_of()) == onoff,
        ActionType::of_code(action.code_of()) == action,
        WindowCoveringStatus::of_code(wcs.code_of()) == wcs,
        DeviceStatus::of_code(ds.code_of()) == ds,
        PowerStatus::of_code(ps.code_of()) == ps,
        OpenStatus::of_code(os.code_of()) == os,
{
}

/// The status texts read back as the values they were written for.
pub proof fn lemma_status_texts_read_back(
    season: ThermoSeason,
    mode: ClimaMode,
    onoff: ClimaOnOff,
    wcs: WindowCoveringStatus,
    ds: DeviceStatus,
    ps: PowerStatus,
    os: OpenStatus,
)
    ensures
        ThermoSeason::of_code(digit_value(digit_text(season.code_of()))) == season,
        ClimaMode::of_code(digit_value(digit_text(mode.code_of()))) == mode,
        ClimaOnOff::of_code(digit_value(digit_text(onoff.code_of()))) == onoff,
        WindowCoveringStatus::of_code(digit_value(digit_text(wcs.code_of()))) == wcs,
        DeviceStatus::of_code(digit_value(digit_text(ds.code_of()))) == ds,
        PowerStatus::of_code(digit_value(digit_text(ps.code_of()))) == ps,
        OpenStatus::of_code(digit_value(digit_text(os.code_of()))) == os,
{
    lemma_digit_text_reads_back(season.code_of());
    lemma_digit_text_reads_back(mode.code_of());
    lemma_digit_text_reads_back(onoff.code_of());
    lemma_digit_text_reads_back(wcs.code_of());
    lemma_digit_text_reads_back(ds.code_of());
    lemma_digit_text_reads_back(ps.code_of());
    lemma_digit_text_reads_back(os.code_of());
}

} // verus!

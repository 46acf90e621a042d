//! Lights, doors and doorbells: how the hub's reports read as accessory
//! state, and what a request from HomeKit or Matter makes the bridge do.
use vstd::prelude::*;
use crate::devices::{DoorDeviceData, LightDeviceData};
use crate::protocol::DeviceStatus;

verus! {

/// Whether a light is on: the hub reports it on (an absent status reads as
/// off).
pub open spec fn light_on_of(status: Option<DeviceStatus>) -> bool {
    status == Some(DeviceStatus::On)
}

/// Whether the hub reports a light on.
pub fn light_on(data: &LightDeviceData) -> (on: bool)
    ensures
        on == light_on_of(data.status),
{
    match data.status {
        Some(DeviceStatus::On) => true,
        _ => false,
    }
}

/// The toggle a request to switch a light to `requested` sends, given the
/// light is `current`: none when it already is in that state.
pub fn light_write_toggle(current: bool, requested: bool) -> (t: Option<bool>)
    ensures
        t == (if current == requested { None } else { Some(requested) }),
{
    if current == requested { None } else { Some(requested) }
}

/// The light's state after a request for `requested`: it takes the
/// requested state when a toggle was needed and the hub accepted it.
pub fn light_after_write(current: bool, requested: bool, toggle_ok: bool) -> (on: bool)
    ensures
        on == (if current != requested && toggle_ok { requested } else { current }),
{
    if current != requested && toggle_ok { requested } else { current }
}

/// The light's state after the hub reports it, and whether that is a change
/// subscribers must be told of.
pub fn light_after_report(was_on: bool, data: &LightDeviceData) -> (r: (bool, bool))
    ensures
        r.0 == light_on_of(data.status),
        r.1 == (was_on != light_on_of(data.status)),
{
    let on = light_on(data);
    (on, was_on != on)
}

/// HomeKit's door position for fully open.
pub const DOOR_FULLY_OPENED: u8 = 100;

/// HomeKit's door position for fully closed.
pub const DOOR_FULLY_CLOSED: u8 = 0;

/// Movement of a door.
#[derive(Debug, Clone, Copy, PartialEq, Eq, Structural)]
pub enum DoorPositionState {
    Closing,
    Opening,
    Stopped,
}

impl DoorPositionState {
    /// The number HomeKit uses for this movement.
    pub open spec fn code_of(self) -> int {
        match self {
            DoorPositionState::Closing => 0,
            DoorPositionState::Opening => 1,
            DoorPositionState::Stopped => 2,
        }
    }

    /// The number HomeKit uses for this movement.
    pub fn code(&self) -> (c: u8)
        ensures
            c == self.code_of(),
    {
        match self {
            DoorPositionState::Closing => 0,
            DoorPositionState::Opening => 1,
            DoorPositionState::Stopped => 2,
        }
    }
}

/// Position and movement of a door, 0 = closed, 100 = open.
#[derive(Debug, Clone, Copy, PartialEq, Eq, Structural)]
pub struct DoorState {
    pub current_position: u8,
    pub target_position: u8,
    pub position_state: DoorPositionState,
}

/// The door state a hub report gives: a door reported on or running is
/// open and opening, any other (an absent status reads as off) closed and
/// at rest; the target is where the door is.
pub open spec fn door_state_of(status: Option<DeviceStatus>) -> DoorState {
    let s = match status { Some(s) => s, None => DeviceStatus::Off };
    if s == DeviceStatus::Off {
        DoorState { current_position: DOOR_FULLY_CLOSED, target_position: DOOR_FULLY_CLOSED, position_state: DoorPositionState::Stopped }
    } else {
        DoorState { current_position: DOOR_FULLY_OPENED, target_position: DOOR_FULLY_OPENED, position_state: DoorPositionState::Opening }
    }
}

impl DoorState {
    /// The door state a hub report gives (see [`door_state_of`]).
    pub fn from_device_data(data: &DoorDeviceData) -> (s: DoorState)
        ensures
            s == door_state_of(data.status),
    {
        let status = match data.status {
            Some(s) => s,
            None => DeviceStatus::Off,
        };
        let position_state = match status {
            DeviceStatus::Running => DoorPositionState::Opening,
            DeviceStatus::Off => DoorPositionState::Stopped,
            DeviceStatus::On => DoorPositionState::Opening,
        };
        let current_position: u8 = match status {
            DeviceStatus::Running => DOOR_FULLY_OPENED,
            DeviceStatus::Off => DOOR_FULLY_CLOSED,
            DeviceStatus::On => DOOR_FULLY_OPENED,
        };
        DoorState { current_position, target_position: current_position, position_state }
    }
}

/// How a door is shown to HomeKit.
#[derive(Debug, Clone, Copy, PartialEq, Eq, Structural)]
pub enum DoorType {
    Door,
    GarageDoor,
    Lock,
}

/// How a door accessory behaves: how long the door takes to open or close
/// and how long it stays open, in milliseconds, and how it is shown.
#[derive(Debug, Clone, Copy, PartialEq, Eq, Structural)]
pub struct DoorConfig {
    pub opening_closing_time_ms: u64,
    pub opened_time_ms: u64,
    pub mount_as: DoorType,
}

/// Only plain doors can be shown; any other mount type is refused.
pub fn check_door_mount(config: &DoorConfig) -> (r: Result<(), String>)
    ensures
        config.mount_as == DoorType::Door <==> r is Ok,
        r matches Err(msg) ==> msg@ == "Invalid door mount type"@,
{
    match config.mount_as {
        DoorType::Door => Ok(()),
        _ => Err(String::from_str("Invalid door mount type")),
    }
}

/// Whether a target position written by HomeKit opens the door: only
/// "fully open" does; the door closes by itself.
pub fn door_open_requested(new_pos: u8) -> (b: bool)
    ensures
        b == (new_pos == DOOR_FULLY_OPENED),
{
    new_pos == DOOR_FULLY_OPENED
}

/// The stages of an opening cycle, started once the hub accepted the open
/// command: the door opens, is open, stays open for the configured time,
/// closes, is closed.
#[derive(Debug, Clone, Copy, PartialEq, Eq, Structural)]
pub enum DoorCycleStep {
    /// The open command was accepted.
    StartOpening,
    /// The opening time has passed.
    ReachedOpen,
    /// The door has stayed open for the configured time.
    StartClosing,
    /// The closing time has passed.
    ReachedClosed,
}

/// The door state after a stage of the opening cycle.
pub open spec fn door_after_step(s: DoorState, step: DoorCycleStep) -> DoorState {
    match step {
        DoorCycleStep::StartOpening => DoorState {
            target_position: DOOR_FULLY_OPENED,
            position_state: DoorPositionState::Opening,
            ..s
        },
        DoorCycleStep::ReachedOpen => DoorState {
            current_position: DOOR_FULLY_OPENED,
            target_position: DOOR_FULLY_OPENED,
            position_state: DoorPositionState::Stopped,
        },
        DoorCycleStep::StartClosing => DoorState {
            target_position: DOOR_FULLY_CLOSED,
            position_state: DoorPositionState::Closing,
            ..s
        },
        DoorCycleStep::ReachedClosed => DoorState {
            current_position: DOOR_FULLY_CLOSED,
            target_position: DOOR_FULLY_CLOSED,
            position_state: DoorPositionState::Stopped,
        },
    }
}

/// The door state after a stage of the opening cycle (see
/// [`door_after_step`]).
pub fn door_cycle_step(s: DoorState, step: DoorCycleStep) -> (r: DoorState)
    ensures
        r == door_after_step(s, step),
{
    match step {
        DoorCycleStep::StartOpening => DoorState {
            target_position: DOOR_FULLY_OPENED,
            position_state: DoorPositionState::Opening,
            ..s
        },
        DoorCycleStep::ReachedOpen => DoorState {
            current_position: DOOR_FULLY_OPENED,
            target_position: DOOR_FULLY_OPENED,
            position_state: DoorPositionState::Stopped,
        },
        DoorCycleStep::StartClosing => DoorState {
            target_position: DOOR_FULLY_CLOSED,
            position_state: DoorPositionState::Closing,
            ..s
        },
        DoorCycleStep::ReachedClosed => DoorState {
            current_position: DOOR_FULLY_CLOSED,
            target_position: DOOR_FULLY_CLOSED,
            position_state: DoorPositionState::Stopped,
        },
    }
}

/// A full opening cycle, from any state, leaves the door closed and at
/// rest, and on the way it is shown open and at rest.
pub proof fn lemma_door_cycle_ends_closed(s: DoorState)
    ensures
        ({
            let opening = door_after_step(s, DoorCycleStep::StartOpening);
            let open = door_after_step(opening, DoorCycleStep::ReachedOpen);
            let closing = door_after_step(open, DoorCycleStep::StartClosing);
            let closed = door_after_step(closing, DoorCycleStep::ReachedClosed);
            &&& opening.target_position == DOOR_FULLY_OPENED
            &&& open == (DoorState {
                current_position: DOOR_FULLY_OPENED,
                target_position: DOOR_FULLY_OPENED,
                position_state: DoorPositionState::Stopped,
            })
            &&& closing.current_position == DOOR_FULLY_OPENED
            &&& closed == door_state_of(None)
        }),
{
}

/// Whether a doorbell report rings the bell: only a press (status on) does.
pub fn doorbell_rings(status: Option<DeviceStatus>) -> (b: bool)
    ensures
        b == (status == Some(DeviceStatus::On)),
{
    match status {
        Some(DeviceStatus::On) => true,
        _ => false,
    }
}

/// A doorbell accessory as HomeKit numbers it: its accessory id, and the
/// instance ids at which its two services start.
#[derive(Debug, Clone, Copy, PartialEq, Eq, Structural)]
pub struct DoorbellAccessory {
    /// The accessory id.
    pub id: u64,
    /// Where the accessory information service starts (always 1).
    pub information_iid: u64,
    /// Where the doorbell service starts: right after the information
    /// service and its characteristics.
    pub doorbell_iid: u64,
}

impl DoorbellAccessory {
    /// A doorbell accessory with id `id` whose accessory information
    /// service has `info_len` characteristics.
    pub fn new(id: u64, info_len: u64) -> (a: DoorbellAccessory)
        requires
            info_len + 2 <= u64::MAX,
        ensures
            a.id == id,
            a.information_iid == 1,
            a.doorbell_iid == info_len + 2,
    {
        DoorbellAccessory { id, information_iid: 1, doorbell_iid: 1 + info_len + 1 }
    }

    /// The accessory id.
    pub fn get_id(&self) -> (id: u64)
        ensures
            id == self.id,
    {
        self.id
    }

    /// Gives the accessory another id; the services keep their ids.
    pub fn set_id(&mut self, id: u64)
        ensures
            final(self).id == id,
            final(self).information_iid == old(self).information_iid,
            final(self).doorbell_iid == old(self).doorbell_iid,
    {
        self.id = id;
    }
}

/// The line listing a light of the hub's index: its description (`Unknown`
/// when it has none), its id, and `on` when the hub reports it on, `off`
/// otherwise.
pub open spec fn light_listing(id: Seq<char>, light: LightDeviceData) -> Seq<char> {
    let name = match light.description { Some(d) => d@, None => "Unknown"@ };
    "Light '"@ + name + "' ("@ + id + ") status: "@ + if light_on_of(light.status) { "on"@ } else { "off"@ }
}

/// The line listing a light of the hub's index (see [`light_listing`]).
pub fn light_listing_line(id: &str, light: &LightDeviceData) -> (line: String)
    ensures
        line@ == light_listing(id@, *light),
{
    let mut line = String::from_str("Light '");
    match &light.description {
        Some(d) => line.append(d.as_str()),
        None => line.append("Unknown"),
    }
    line.append("' (");
    line.append(id);
    line.append(") status: ");
    if light_on(light) {
        line.append("on");
    } else {
        line.append("off");
    }
    line
}

/// How a door reads from a hub report: reported on or running it is open
/// (position 100, also its target) and opening; reported off, or with no
/// status, it is closed (position 0) and stopped.
pub proof fn lemma_door_reading(status: Option<DeviceStatus>)
    ensures
        (status == Some(DeviceStatus::On) || status == Some(DeviceStatus::Running)) ==> door_state_of(status)
            == (DoorState { current_position: 100, target_position: 100, position_state: DoorPositionState::Opening }),
        (status == Some(DeviceStatus::Off) || status is None) ==> door_state_of(status)
            == (DoorState { current_position: 0, target_position: 0, position_state: DoorPositionState::Stopped }),
{
}

} // verus!

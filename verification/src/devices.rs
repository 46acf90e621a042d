//! Device records read from the hub's device index and status pushes.
use vstd::prelude::*;
use crate::protocol::{
    ClimaMode, DeviceStatus, ObjectSubtype, ObjectType, PowerStatus, ThermoSeason,
    WindowCoveringStatus,
};
use crate::text::{decimal, decimal_string};

verus! {

/// A window covering (blind, shutter) as the hub reports it.
#[derive(Debug, Clone)]
pub struct WindowCoveringDeviceData {
    pub id: String,
    pub object_type: ObjectType,
    pub sub_type: ObjectSubtype,
    pub status: Option<DeviceStatus>,
    pub description: Option<String>,
    pub power_status: Option<WindowCoveringStatus>,
}

/// A light as the hub reports it.
#[derive(Debug, Clone)]
pub struct LightDeviceData {
    pub id: String,
    pub object_type: ObjectType,
    pub sub_type: ObjectSubtype,
    pub status: Option<DeviceStatus>,
    pub description: Option<String>,
    pub power_status: Option<PowerStatus>,
}

/// A thermostat (possibly with a dehumidifier) as the hub reports it. The
/// temperatures are texts in tenths of a degree Celsius, the humidities
/// texts in percent.
#[derive(Debug, Clone)]
pub struct ThermostatDeviceData {
    pub id: String,
    pub object_type: ObjectType,
    pub sub_type: ObjectSubtype,
    pub status: Option<DeviceStatus>,
    pub description: Option<String>,
    pub temperature: Option<String>,
    pub auto_man: Option<ClimaMode>,
    pub season: Option<ThermoSeason>,
    pub active_threshold: Option<String>,
    pub humidity: Option<String>,
    pub humi_active_threshold: Option<String>,
    pub auto_man_umi: Option<ClimaMode>,
}

/// A gate or door opener of the intercom system.
#[derive(Debug, Clone)]
pub struct DoorDeviceData {
    pub id: String,
    pub object_type: ObjectType,
    pub sub_type: ObjectSubtype,
    pub status: Option<DeviceStatus>,
    pub description: Option<String>,
}

/// A doorbell of the intercom system.
#[derive(Debug, Clone)]
pub struct DoorbellDeviceData {
    pub id: String,
    pub object_type: ObjectType,
    pub sub_type: ObjectSubtype,
    pub status: Option<DeviceStatus>,
    pub description: Option<String>,
}

/// The fields every device record of the index has.
#[derive(Debug, Clone)]
pub struct DeviceData {
    pub id: String,
    pub object_type: ObjectType,
    pub sub_type: ObjectSubtype,
    pub status: Option<DeviceStatus>,
    pub description: Option<String>,
    pub power_status: Option<PowerStatus>,
}

/// A generic device with an exit delay.
#[derive(Debug, Clone)]
pub struct OtherDeviceData {
    pub data: DeviceData,
    pub tempo_uscita: String,
}

/// A power outlet.
#[derive(Debug, Clone)]
pub struct OutletDeviceData {
    pub data: DeviceData,
    pub instant_power: String,
    pub out_power: u16,
}

/// An irrigation controller.
#[derive(Debug, Clone)]
pub struct IrrigationDeviceData {
    pub data: DeviceData,
}

/// A power supply meter.
#[derive(Debug, Clone)]
pub struct SupplierDeviceData {
    pub data: DeviceData,
    pub label_value: Option<String>,
    pub label_price: Option<String>,
    pub prod: Option<String>,
    pub count_div: Option<String>,
    pub cost: Option<String>,
    pub k_co2: Option<String>,
    pub compare: Option<String>,
    pub group_order: Option<String>,
    pub instant_power: String,
}

/// A software agent of the hub.
#[derive(Debug, Clone)]
pub struct AgentDeviceData {
    pub agent_id: u32,
    pub description: String,
}

/// Any device of the hub.
#[derive(Debug, Clone)]
pub enum HomeDeviceData {
    Agent(AgentDeviceData),
    Data(DeviceData),
    Other(OtherDeviceData),
    Light(LightDeviceData),
    WindowCovering(WindowCoveringDeviceData),
    Outlet(OutletDeviceData),
    Irrigation(IrrigationDeviceData),
    Thermostat(ThermostatDeviceData),
    Supplier(SupplierDeviceData),
    Doorbell(DoorbellDeviceData),
    Door(DoorDeviceData),
}

/// The id of the device and its description, if any.
pub open spec fn id_and_description(d: HomeDeviceData) -> (Seq<char>, Option<Seq<char>>) {
    let desc = |o: Option<String>| match o { Some(s) => Some(s@), None => None::<Seq<char>> };
    match d {
        HomeDeviceData::Agent(o) => (decimal(o.agent_id as nat), Some(o.description@)),
        HomeDeviceData::Data(o) => (o.id@, desc(o.description)),
        HomeDeviceData::Other(o) => (o.data.id@, desc(o.data.description)),
        HomeDeviceData::Light(o) => (o.id@, desc(o.description)),
        HomeDeviceData::WindowCovering(o) => (o.id@, desc(o.description)),
        HomeDeviceData::Outlet(o) => (o.data.id@, desc(o.data.description)),
        HomeDeviceData::Irrigation(o) => (o.data.id@, desc(o.data.description)),
        HomeDeviceData::Thermostat(o) => (o.id@, desc(o.description)),
        HomeDeviceData::Supplier(o) => (o.data.id@, desc(o.data.description)),
        HomeDeviceData::Doorbell(o) => (o.id@, desc(o.description)),
        HomeDeviceData::Door(o) => (o.id@, desc(o.description)),
    }
}

/// The id of a device: an agent's number in decimal, the device id for
/// every other device.
pub open spec fn device_id_of(d: HomeDeviceData) -> Seq<char> {
    id_and_description(d).0
}

/// The name of a device: its description, or its id when it has none.
pub open spec fn device_name_of(d: HomeDeviceData) -> Seq<char> {
    match id_and_description(d).1 {
        Some(n) => n,
        None => id_and_description(d).0,
    }
}

fn description_or(description: &Option<String>, id: &String) -> (r: String)
    ensures
        r@ == match *description { Some(s) => s@, None => id@ },
{
    match description {
        Some(s) => s.clone(),
        None => id.clone(),
    }
}

impl HomeDeviceData {
    /// The device's id (see [`device_id_of`]).
    pub fn id(&self) -> (r: String)
        ensures
            r@ == device_id_of(*self),
    {
        match self {
            HomeDeviceData::Agent(o) => decimal_string(o.agent_id as u64),
            HomeDeviceData::Data(o) => o.id.clone(),
            HomeDeviceData::Other(o) => o.data.id.clone(),
            HomeDeviceData::Light(o) => o.id.clone(),
            HomeDeviceData::WindowCovering(o) => o.id.clone(),
            HomeDeviceData::Outlet(o) => o.data.id.clone(),
            HomeDeviceData::Irrigation(o) => o.data.id.clone(),
            HomeDeviceData::Thermostat(o) => o.id.clone(),
            HomeDeviceData::Supplier(o) => o.data.id.clone(),
            HomeDeviceData::Doorbell(o) => o.id.clone(),
            HomeDeviceData::Door(o) => o.id.clone(),
        }
    }

    /// The device's name (see [`device_name_of`]).
    pub fn name(&self) -> (r: String)
        ensures
            r@ == device_name_of(*self),
    {
        match self {
            HomeDeviceData::Agent(o) => o.description.clone(),
            HomeDeviceData::Data(o) => description_or(&o.description, &o.id),
            HomeDeviceData::Other(o) => description_or(&o.data.description, &o.data.id),
            HomeDeviceData::Light(o) => description_or(&o.description, &o.id),
            HomeDeviceData::WindowCovering(o) => description_or(&o.description, &o.id),
            HomeDeviceData::Outlet(o) => description_or(&o.data.description, &o.data.id),
            HomeDeviceData::Irrigation(o) => description_or(&o.data.description, &o.data.id),
            HomeDeviceData::Thermostat(o) => description_or(&o.description, &o.id),
            HomeDeviceData::Supplier(o) => description_or(&o.data.description, &o.data.id),
            HomeDeviceData::Doorbell(o) => description_or(&o.description, &o.id),
            HomeDeviceData::Door(o) => description_or(&o.description, &o.id),
        }
    }
}

/// How an entry of the device index is read, by its object type.
#[derive(Debug, Clone, Copy, PartialEq, Eq, Structural)]
pub enum IndexEntryKind {
    /// A device, read as the record of that kind.
    Other,
    WindowCovering,
    Light,
    Irrigation,
    Thermostat,
    Outlet,
    Supplier,
    Agent,
    Doorbell,
    Door,
    /// A zone, whose elements are entries of the index in turn.
    Zone,
    /// An entry of unknown type, which is skipped.
    Skip,
}

/// How an entry of object type `t` is read: power suppliers are supplier
/// records, VIP elements doorbells, zones hold further entries, unknown
/// entries are skipped, every other type is read as the record of the same
/// name.
pub open spec fn entry_kind_of(t: ObjectType) -> IndexEntryKind {
    match t {
        ObjectType::Other => IndexEntryKind::Other,
        ObjectType::WindowCovering => IndexEntryKind::WindowCovering,
        ObjectType::Light => IndexEntryKind::Light,
        ObjectType::Irrigation => IndexEntryKind::Irrigation,
        ObjectType::Thermostat => IndexEntryKind::Thermostat,
        ObjectType::Outlet => IndexEntryKind::Outlet,
        ObjectType::PowerSupplier => IndexEntryKind::Supplier,
        ObjectType::Agent => IndexEntryKind::Agent,
        ObjectType::Zone => IndexEntryKind::Zone,
        ObjectType::VipElement => IndexEntryKind::Doorbell,
        ObjectType::Door => IndexEntryKind::Door,
        ObjectType::Unknown => IndexEntryKind::Skip,
    }
}

/// How an entry of object type `t` is read (see [`entry_kind_of`]).
pub fn entry_kind(t: ObjectType) -> (k: IndexEntryKind)
    ensures
        k == entry_kind_of(t),
{
    match t {
        ObjectType::Other => IndexEntryKind::Other,
        ObjectType::WindowCovering => IndexEntryKind::WindowCovering,
        ObjectType::Light => IndexEntryKind::Light,
        ObjectType::Irrigation => IndexEntryKind::Irrigation,
        ObjectType::Thermostat => IndexEntryKind::Thermostat,
        ObjectType::Outlet => IndexEntryKind::Outlet,
        ObjectType::PowerSupplier => IndexEntryKind::Supplier,
        ObjectType::Agent => IndexEntryKind::Agent,
        ObjectType::Zone => IndexEntryKind::Zone,
        ObjectType::VipElement => IndexEntryKind::Doorbell,
        ObjectType::Door => IndexEntryKind::Door,
        ObjectType::Unknown => IndexEntryKind::Skip,
    }
}

/// An entry of the device index once read: a device, a zone of entries, or
/// an entry of unknown type.
#[derive(Debug)]
pub enum DeviceNode {
    Device(HomeDeviceData),
    Zone(Vec<DeviceNode>),
    Unknown,
}

/// The devices of an index entry: the device itself, the devices of a
/// zone's entries in order, none for an unknown entry.
pub open spec fn devices_of_node(n: DeviceNode) -> Seq<HomeDeviceData>
    decreases n,
{
    match n {
        DeviceNode::Device(d) => seq![d],
        DeviceNode::Zone(children) => devices_of_nodes(children@),
        DeviceNode::Unknown => Seq::empty(),
    }
}

/// The devices of a list of index entries, in order.
pub open spec fn devices_of_nodes(nodes: Seq<DeviceNode>) -> Seq<HomeDeviceData>
    decreases nodes,
{
    if nodes.len() == 0 {
        Seq::empty()
    } else {
        devices_of_nodes(nodes.drop_last()) + devices_of_node(nodes.last())
    }
}

/// The devices of an index entry (see [`devices_of_node`]).
pub fn flatten_device_node(n: DeviceNode) -> (r: Vec<HomeDeviceData>)
    ensures
        r@ == devices_of_node(n),
    decreases n,
{
    match n {
        DeviceNode::Device(d) => {
            let mut v: Vec<HomeDeviceData> = Vec::new();
            v.push(d);
            assert(v@ =~= seq![d]);
            v
        },
        DeviceNode::Zone(children) => flatten_device_nodes(children),
        DeviceNode::Unknown => Vec::new(),
    }
}

/// The devices of a list of index entries (see [`devices_of_nodes`]).
pub fn flatten_device_nodes(nodes: Vec<DeviceNode>) -> (r: Vec<HomeDeviceData>)
    ensures
        r@ == devices_of_nodes(nodes@),
    decreases nodes@,
{
    let ghost all = nodes@;
    let mut nodes = nodes;
    match nodes.pop() {
        None => {
            assert(all.len() == 0);
            Vec::new()
        },
        Some(last) => {
            assert(nodes@ =~= all.subrange(0, all.len() - 1));
            assert(all.drop_last() == nodes@);
            let mut init = flatten_device_nodes(nodes);
            let mut tail = flatten_device_node(last);
            let ghost a = init@;
            let ghost b = tail@;
            init.append(&mut tail);
            assert(init@ =~= a + b);
            init
        },
    }
}

} // verus!

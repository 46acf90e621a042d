//! What the bridge knows about itself, shown by the web UI: connection and
//! pairing, the registered devices, pings and updates received.
//!
//! Times are milliseconds on a monotonic clock chosen by the caller.
use vstd::prelude::*;
use crate::text::{decimal, push_decimal, str_equal};

verus! {

/// Kind of a registered device.
#[derive(Debug, Clone, Copy, PartialEq, Eq, Hash, Structural)]
pub enum DeviceType {
    Light,
    Thermostat,
    WindowCovering,
    Door,
    Doorbell,
}

impl DeviceType {
    /// The kind as used in metric labels and identifiers.
    pub fn as_str(&self) -> (s: &'static str)
        ensures
            s@ == match *self {
                DeviceType::Light => "light"@,
                DeviceType::Thermostat => "thermostat"@,
                DeviceType::WindowCovering => "window_covering"@,
                DeviceType::Door => "door"@,
                DeviceType::Doorbell => "doorbell"@,
            },
    {
        match self {
            DeviceType::Light => "light",
            DeviceType::Thermostat => "thermostat",
            DeviceType::WindowCovering => "window_covering",
            DeviceType::Door => "door",
            DeviceType::Doorbell => "doorbell",
        }
    }

    /// The kind as shown to people.
    pub fn display_name(&self) -> (s: &'static str)
        ensures
            s@ == match *self {
                DeviceType::Light => "Light"@,
                DeviceType::Thermostat => "Thermostat"@,
                DeviceType::WindowCovering => "Window Covering"@,
                DeviceType::Door => "Door"@,
                DeviceType::Doorbell => "Doorbell"@,
            },
    {
        match self {
            DeviceType::Light => "Light",
            DeviceType::Thermostat => "Thermostat",
            DeviceType::WindowCovering => "Window Covering",
            DeviceType::Door => "Door",
            DeviceType::Doorbell => "Doorbell",
        }
    }
}

/// State of the connection to the hub.
#[derive(Debug, Clone, Copy, PartialEq, Eq, Structural)]
pub enum ConnectionStatus {
    Disconnected,
    Connecting,
    Connected,
    Error,
}

impl ConnectionStatus {
    /// The status as shown in the web UI.
    pub fn as_str(&self) -> (s: &'static str)
        ensures
            s@ == match *self {
                ConnectionStatus::Disconnected => "disconnected"@,
                ConnectionStatus::Connecting => "connecting"@,
                ConnectionStatus::Connected => "connected"@,
                ConnectionStatus::Error => "error"@,
            },
    {
        match self {
            ConnectionStatus::Disconnected => "disconnected",
            ConnectionStatus::Connecting => "connecting",
            ConnectionStatus::Connected => "connected",
            ConnectionStatus::Error => "error",
        }
    }
}

/// A registered device.
#[derive(Debug)]
pub struct DeviceInfo {
    /// Hub id of the device.
    pub id: String,
    /// Name shown to people.
    pub name: String,
    pub device_type: DeviceType,
    /// Last status, in a form specific to the kind of device.
    pub status: String,
    /// When the last status arrived, if one did.
    pub last_update: Option<u64>,
}

/// A registered device as plain values.
pub struct DeviceView {
    pub id: Seq<char>,
    pub name: Seq<char>,
    pub device_type: DeviceType,
    pub status: Seq<char>,
    pub last_update: Option<u64>,
}

impl View for DeviceInfo {
    type V = DeviceView;

    open spec fn view(&self) -> DeviceView {
        DeviceView {
            id: self.id@,
            name: self.name@,
            device_type: self.device_type,
            status: self.status@,
            last_update: self.last_update,
        }
    }
}

impl DeviceInfo {
    /// A copy of the device record.
    pub fn duplicate(&self) -> (d: DeviceInfo)
        ensures
            d@ == self@,
    {
        DeviceInfo {
            id: self.id.clone(),
            name: self.name.clone(),
            device_type: self.device_type,
            status: self.status.clone(),
            last_update: self.last_update,
        }
    }
}

/// The views of a list of devices.
pub open spec fn views(devices: Seq<DeviceInfo>) -> Seq<DeviceView> {
    devices.map_values(|d: DeviceInfo| d@)
}

/// No two devices of the list share an id.
pub open spec fn ids_unique(devices: Seq<DeviceView>) -> bool {
    forall|i: int, j: int| 0 <= i < j < devices.len() ==> devices[i].id != devices[j].id
}

/// The position of the device with id `id`, if one is registered.
pub open spec fn position_of(devices: Seq<DeviceView>, id: Seq<char>) -> Option<int> {
    if exists|i: int| 0 <= i < devices.len() && devices[i].id == id {
        Some(choose|i: int| 0 <= i < devices.len() && devices[i].id == id)
    } else {
        None
    }
}

/// The devices after registering `d`: it replaces the device with its id,
/// or joins the list at the end.
pub open spec fn registered(devices: Seq<DeviceView>, d: DeviceView) -> Seq<DeviceView> {
    match position_of(devices, d.id) {
        Some(i) => devices.update(i, d),
        None => devices.push(d),
    }
}

/// The devices after a status update for `id` at `now`: the device with that
/// id (if any) takes the new status and update time.
pub open spec fn status_updated(devices: Seq<DeviceView>, id: Seq<char>, status: Seq<char>, now: u64) -> Seq<DeviceView> {
    match position_of(devices, id) {
        Some(i) => devices.update(i, DeviceView { status, last_update: Some(now), ..devices[i] }),
        None => devices,
    }
}

/// Whether a device is of kind `t`.
pub open spec fn of_type(t: DeviceType) -> spec_fn(DeviceView) -> bool {
    |d: DeviceView| d.device_type == t
}

/// How many devices of kind `t` the list holds.
pub open spec fn count_of_type(devices: Seq<DeviceView>, t: DeviceType) -> nat {
    devices.filter(of_type(t)).len()
}

/// The place of a kind in [`all_device_types`].
pub open spec fn type_index(t: DeviceType) -> int {
    match t {
        DeviceType::Light => 0,
        DeviceType::Thermostat => 1,
        DeviceType::WindowCovering => 2,
        DeviceType::Door => 3,
        DeviceType::Doorbell => 4,
    }
}

/// The five kinds of devices, in a fixed order.
pub open spec fn all_device_types() -> Seq<DeviceType> {
    seq![DeviceType::Light, DeviceType::Thermostat, DeviceType::WindowCovering, DeviceType::Door, DeviceType::Doorbell]
}

/// `counts` gives, for every kind with at least one device, the number of
/// devices of that kind, once per kind; kinds without devices are left out.
pub open spec fn counts_match(counts: Seq<(DeviceType, usize)>, devices: Seq<DeviceView>) -> bool {
    &&& forall|k: int| 0 <= k < counts.len() ==> counts[k].1 == count_of_type(devices, counts[k].0) && counts[k].1 > 0
    &&& forall|a: int, b: int| 0 <= a < b < counts.len() ==> counts[a].0 != counts[b].0
    &&& forall|t: DeviceType| count_of_type(devices, t) > 0 ==>
        exists|k: int| 0 <= k < counts.len() && #[trigger] counts[k].0 == t
}

/// Shared bridge state.
pub struct BridgeState {
    start_time: u64,
    connection_status: ConnectionStatus,
    is_paired: bool,
    pairing_pin: String,
    pairing_url: String,
    /// The registered devices, in registration order, no two with the same
    /// id (see `wf`). A list rather than a `HashMap` by id: the verifier's
    /// model of `HashMap` proves nothing about lookups by `String` keys, so a
    /// map here would leave registration and status updates unproved.
    devices: Vec<DeviceInfo>,
    last_ping: Option<u64>,
    ping_count: u64,
    ping_failures: u64,
    update_count: u64,
    hub_host: Option<String>,
    last_error: Option<String>,
}

/// A snapshot of the bridge state for the web UI.
pub struct BridgeStateSummary {
    pub uptime_seconds: u64,
    pub connection_status: ConnectionStatus,
    pub is_paired: bool,
    pub pairing_pin: String,
    pub pairing_url: String,
    pub device_count: usize,
    /// Number of devices per kind, for the kinds that have devices, each
    /// kind once. A list of pairs rather than a `HashMap`: a map keyed by a
    /// type whose `Eq` and `Hash` are derived is not something the verifier
    /// can reason about, so the counts could not be stated over it.
    pub device_counts: Vec<(DeviceType, usize)>,
    pub last_ping_seconds_ago: Option<u64>,
    pub ping_count: u64,
    pub ping_failures: u64,
    pub update_count: u64,
    pub hub_host: Option<String>,
    pub last_error: Option<String>,
}

/// Whole seconds from `since` to `now`, both in milliseconds of a monotonic
/// clock (none when `now` is earlier).
pub open spec fn seconds_between(since: u64, now: u64) -> u64 {
    if now >= since { ((now - since) / 1000) as u64 } else { 0 }
}

fn seconds_since(since: u64, now: u64) -> (s: u64)
    ensures
        s == seconds_between(since, now),
{
    if now >= since { (now - since) / 1000 } else { 0 }
}

fn copy_opt_string(s: &Option<String>) -> (r: Option<String>)
    ensures
        s is None <==> r is None,
        s matches Some(x) ==> r matches Some(y) && y@ == x@,
{
    match s {
        Some(x) => Some(x.clone()),
        None => None,
    }
}

impl BridgeState {
    /// The state's fields are consistent: no two registered devices share an
    /// id, and the failed pings are among the pings.
    pub closed spec fn wf(&self) -> bool {
        &&& ids_unique(views(self.devices@))
        &&& self.ping_failures <= self.ping_count
    }

    /// The registered devices, in registration order.
    pub closed spec fn devices_view(&self) -> Seq<DeviceView> {
        views(self.devices@)
    }

    /// When the bridge started.
    pub closed spec fn start_time_spec(&self) -> u64 {
        self.start_time
    }

    /// The state of the connection to the hub.
    pub closed spec fn connection_status_spec(&self) -> ConnectionStatus {
        self.connection_status
    }

    /// Whether HomeKit is paired.
    pub closed spec fn is_paired_spec(&self) -> bool {
        self.is_paired
    }

    /// The pairing PIN (empty until known).
    pub closed spec fn pairing_pin_spec(&self) -> Seq<char> {
        self.pairing_pin@
    }

    /// The pairing URL (empty until known).
    pub closed spec fn pairing_url_spec(&self) -> Seq<char> {
        self.pairing_url@
    }

    /// The hub's host, when known.
    pub closed spec fn hub_host_spec(&self) -> Option<Seq<char>> {
        match self.hub_host {
            Some(h) => Some(h@),
            None => None,
        }
    }

    /// The last error recorded, if any.
    pub closed spec fn last_error_spec(&self) -> Option<Seq<char>> {
        match self.last_error {
            Some(h) => Some(h@),
            None => None,
        }
    }

    /// When the last successful ping was recorded.
    pub closed spec fn last_ping_spec(&self) -> Option<u64> {
        self.last_ping
    }

    /// How many pings were recorded.
    pub closed spec fn ping_count_spec(&self) -> u64 {
        self.ping_count
    }

    /// How many recorded pings failed.
    pub closed spec fn ping_failures_spec(&self) -> u64 {
        self.ping_failures
    }

    /// How many status updates were received.
    pub closed spec fn update_count_spec(&self) -> u64 {
        self.update_count
    }

    /// The fields other than the ones named by a method are those of `other`.
    pub closed spec fn same_except_devices_and_updates(&self, other: &BridgeState) -> bool {
        &&& self.start_time == other.start_time
        &&& self.connection_status == other.connection_status
        &&& self.is_paired == other.is_paired
        &&& self.pairing_pin@ == other.pairing_pin@
        &&& self.pairing_url@ == other.pairing_url@
        &&& self.last_ping == other.last_ping
        &&& self.ping_count == other.ping_count
        &&& self.ping_failures == other.ping_failures
        &&& self.hub_host_spec() == other.hub_host_spec()
        &&& self.last_error_spec() == other.last_error_spec()
    }

    /// A fresh state at `now`: disconnected, unpaired, no pin, url or host,
    /// no devices, no pings, no updates, no error.
    pub fn new(now: u64) -> (s: BridgeState)
        ensures
            s.wf(),
            s.start_time_spec() == now,
            s.connection_status_spec() == ConnectionStatus::Disconnected,
            !s.is_paired_spec(),
            s.pairing_pin_spec().len() == 0,
            s.pairing_url_spec().len() == 0,
            s.devices_view().len() == 0,
            s.last_ping_spec() is None,
            s.ping_count_spec() == 0,
            s.ping_failures_spec() == 0,
            s.update_count_spec() == 0,
            s.hub_host_spec() is None,
            s.last_error_spec() is None,
    {
        let s = BridgeState {
            start_time: now,
            connection_status: ConnectionStatus::Disconnected,
            is_paired: false,
            pairing_pin: String::new(),
            pairing_url: String::new(),
            devices: Vec::new(),
            last_ping: None,
            ping_count: 0,
            ping_failures: 0,
            update_count: 0,
            hub_host: None,
            last_error: None,
        };
        assert(views(s.devices@) =~= Seq::<DeviceView>::empty());
        s
    }

    /// When the bridge started.
    pub fn start_time(&self) -> (t: u64)
        ensures
            t == self.start_time_spec(),
    {
        self.start_time
    }

    /// Whole seconds since the bridge started.
    pub fn uptime_seconds(&self, now: u64) -> (s: u64)
        ensures
            s == seconds_between(self.start_time_spec(), now),
    {
        seconds_since(self.start_time, now)
    }

    /// The state of the connection to the hub.
    pub fn connection_status(&self) -> (c: ConnectionStatus)
        ensures
            c == self.connection_status_spec(),
    {
        self.connection_status
    }

    /// Records the state of the connection to the hub.
    pub fn set_connection_status(&mut self, status: ConnectionStatus)
        requires
            old(self).wf(),
        ensures
            final(self).wf(),
            final(self).connection_status_spec() == status,
            final(self).devices_view() == old(self).devices_view(),
            final(self).update_count_spec() == old(self).update_count_spec(),
            final(self).ping_count_spec() == old(self).ping_count_spec(),
            final(self).ping_failures_spec() == old(self).ping_failures_spec(),
    {
        self.connection_status = status;
    }

    /// Whether HomeKit is paired.
    pub fn is_paired(&self) -> (b: bool)
        ensures
            b == self.is_paired_spec(),
    {
        self.is_paired
    }

    /// Records whether HomeKit is paired.
    pub fn set_paired(&mut self, paired: bool)
        requires
            old(self).wf(),
        ensures
            final(self).wf(),
            final(self).is_paired_spec() == paired,
            final(self).connection_status_spec() == old(self).connection_status_spec(),
            final(self).devices_view() == old(self).devices_view(),
    {
        self.is_paired = paired;
    }

    /// The pairing PIN.
    pub fn pairing_pin(&self) -> (p: String)
        ensures
            p@ == self.pairing_pin_spec(),
    {
        self.pairing_pin.clone()
    }

    /// Records the pairing PIN.
    pub fn set_pairing_pin(&mut self, pin: String)
        requires
            old(self).wf(),
        ensures
            final(self).wf(),
            final(self).pairing_pin_spec() == pin@,
            final(self).devices_view() == old(self).devices_view(),
    {
        self.pairing_pin = pin;
    }

    /// The pairing URL.
    pub fn pairing_url(&self) -> (u: String)
        ensures
            u@ == self.pairing_url_spec(),
    {
        self.pairing_url.clone()
    }

    /// Records the pairing URL.
    pub fn set_pairing_url(&mut self, url: String)
        requires
            old(self).wf(),
        ensures
            final(self).wf(),
            final(self).pairing_url_spec() == url@,
            final(self).devices_view() == old(self).devices_view(),
    {
        self.pairing_url = url;
    }

    /// The hub's host, when known.
    pub fn hub_host(&self) -> (h: Option<String>)
        ensures
            self.hub_host_spec() is None <==> h is None,
            h matches Some(x) ==> self.hub_host_spec() == Some(x@),
    {
        copy_opt_string(&self.hub_host)
    }

    /// Records the hub's host.
    pub fn set_hub_host(&mut self, host: String)
        requires
            old(self).wf(),
        ensures
            final(self).wf(),
            final(self).hub_host_spec() == Some(host@),
            final(self).devices_view() == old(self).devices_view(),
    {
        self.hub_host = Some(host);
    }

    /// The position of the device with id `id`.
    fn find_device(&self, id: &str) -> (r: Option<usize>)
        requires
            self.wf(),
        ensures
            r matches Some(i) ==> position_of(self.devices_view(), id@) == Some(i as int),
            r is None ==> position_of(self.devices_view(), id@) is None,
    {
        let ghost v = self.devices_view();
        let mut i: usize = 0;
        while i < self.devices.len()
            invariant
                i <= self.devices@.len(),
                v == views(self.devices@),
                ids_unique(v),
                forall|j: int| 0 <= j < i ==> v[j].id != id@,
            decreases self.devices@.len() - i,
        {
            if str_equal(self.devices[i].id.as_str(), id) {
                assert(v[i as int].id == id@);
                assert(position_of(v, id@) == Some(i as int));
                return Some(i);
            }
            i = i + 1;
        }
        assert(!(exists|j: int| 0 <= j < v.len() && v[j].id == id@));
        None
    }

    /// Registers a device, replacing a device with the same id.
    pub fn register_device(&mut self, device: DeviceInfo)
        requires
            old(self).wf(),
        ensures
            final(self).wf(),
            final(self).devices_view() == registered(old(self).devices_view(), device@),
            final(self).update_count_spec() == old(self).update_count_spec(),
            final(self).same_except_devices_and_updates(old(self)),
    {
        let ghost v = self.devices_view();
        let ghost d = device@;
        match self.find_device(device.id.as_str()) {
            Some(i) => {
                self.devices.set(i, device);
                assert(views(self.devices@) =~= v.update(i as int, d));
            },
            None => {
                self.devices.push(device);
                assert(views(self.devices@) =~= v.push(d));
            },
        }
    }

    /// Records a status update for the device with id `id` at `now`, and
    /// counts the update (also for unknown devices).
    pub fn update_device_status(&mut self, id: &str, status: String, now: u64)
        requires
            old(self).wf(),
            old(self).update_count_spec() < u64::MAX,
        ensures
            final(self).wf(),
            final(self).devices_view() == status_updated(old(self).devices_view(), id@, status@, now),
            final(self).update_count_spec() == old(self).update_count_spec() + 1,
            final(self).same_except_devices_and_updates(old(self)),
    {
        let ghost v = self.devices_view();
        match self.find_device(id) {
            Some(i) => {
                let old_d = self.devices[i].duplicate();
                let d = DeviceInfo {
                    id: old_d.id,
                    name: old_d.name,
                    device_type: old_d.device_type,
                    status,
                    last_update: Some(now),
                };
                self.devices.set(i, d);
                assert(views(self.devices@) =~= status_updated(v, id@, status@, now));
            },
            None => {},
        }
        self.update_count = self.update_count + 1;
    }

    /// Copies of all registered devices.
    pub fn devices(&self) -> (r: Vec<DeviceInfo>)
        ensures
            views(r@) == self.devices_view(),
    {
        let mut r: Vec<DeviceInfo> = Vec::new();
        let mut i: usize = 0;
        while i < self.devices.len()
            invariant
                i <= self.devices@.len(),
                views(r@) == views(self.devices@).subrange(0, i as int),
            decreases self.devices@.len() - i,
        {
            let ghost prev = r@;
            let d = self.devices[i].duplicate();
            r.push(d);
            assert(r@ =~= prev.push(d));
            proof { prev.lemma_push_map_commute(|x: DeviceInfo| x@, d); }
            i = i + 1;
            assert(views(r@) =~= views(self.devices@).subrange(0, i as int));
        }
        assert(views(self.devices@).subrange(0, i as int) =~= views(self.devices@));
        r
    }

    /// Copies of the registered devices of kind `device_type`, in
    /// registration order.
    pub fn devices_by_type(&self, device_type: DeviceType) -> (r: Vec<DeviceInfo>)
        ensures
            views(r@) == self.devices_view().filter(of_type(device_type)),
    {
        let ghost v = views(self.devices@);
        let mut r: Vec<DeviceInfo> = Vec::new();
        let mut i: usize = 0;
        while i < self.devices.len()
            invariant
                i <= self.devices@.len(),
                v == views(self.devices@),
                views(r@) == v.subrange(0, i as int).filter(of_type(device_type)),
            decreases self.devices@.len() - i,
        {
            let ghost prev = r@;
            assert(v.subrange(0, i + 1) =~= v.subrange(0, i as int).push(v[i as int]));
            proof {
                v.subrange(0, i as int).lemma_filter_push(v[i as int], of_type(device_type));
            }
            if self.devices[i].device_type == device_type {
                let d = self.devices[i].duplicate();
                r.push(d);
                assert(r@ =~= prev.push(d));
                proof { prev.lemma_push_map_commute(|x: DeviceInfo| x@, d); }
            }
            i = i + 1;
        }
        assert(v.subrange(0, i as int) =~= v);
        r
    }

    /// How many devices of kind `t` are registered.
    fn count_type(&self, t: DeviceType) -> (n: usize)
        ensures
            n == count_of_type(self.devices_view(), t),
    {
        let ghost v = views(self.devices@);
        let mut n: usize = 0;
        let mut i: usize = 0;
        while i < self.devices.len()
            invariant
                i <= self.devices@.len(),
                v == views(self.devices@),
                n == count_of_type(v.subrange(0, i as int), t),
                n <= i,
            decreases self.devices@.len() - i,
        {
            assert(v.subrange(0, i + 1) =~= v.subrange(0, i as int).push(v[i as int]));
            proof {
                v.subrange(0, i as int).lemma_filter_push(v[i as int], of_type(t));
            }
            if self.devices[i].device_type == t {
                n = n + 1;
            }
            i = i + 1;
        }
        assert(v.subrange(0, i as int) =~= v);
        n
    }

    /// The number of registered devices of each kind that has any.
    pub fn device_counts(&self) -> (r: Vec<(DeviceType, usize)>)
        ensures
            counts_match(r@, self.devices_view()),
    {
        let ghost v = self.devices_view();
        let mut r: Vec<(DeviceType, usize)> = Vec::new();
        let types: [DeviceType; 5] = [DeviceType::Light, DeviceType::Thermostat, DeviceType::WindowCovering, DeviceType::Door, DeviceType::Doorbell];
        let mut k: usize = 0;
        while k < 5
            invariant
                k <= 5,
                v == self.devices_view(),
                types@ == all_device_types(),
                forall|a: int| 0 <= a < r@.len() ==> r@[a].1 == count_of_type(v, r@[a].0) && r@[a].1 > 0,
                forall|a: int| 0 <= a < r@.len() ==> type_index(#[trigger] r@[a].0) < k,
                forall|a: int, b: int| 0 <= a < b < r@.len() ==> r@[a].0 != r@[b].0,
                forall|b: int| 0 <= b < k && count_of_type(v, types@[b]) > 0 ==>
                    exists|a: int| 0 <= a < r@.len() && #[trigger] r@[a].0 == types@[b],
            decreases 5 - k,
        {
            let t = types[k];
            let n = self.count_type(t);
            let ghost prev = r@;
            if n > 0 {
                assert(type_index(t) == k);
                r.push((t, n));
                assert(r@[prev.len() as int].0 == types@[k as int]);
            }
            assert forall|b: int| 0 <= b < k + 1 && count_of_type(v, types@[b]) > 0 implies
                exists|a: int| 0 <= a < r@.len() && #[trigger] r@[a].0 == types@[b] by {
                if b < k {
                    let a = choose|a: int| 0 <= a < prev.len() && #[trigger] prev[a].0 == types@[b];
                    assert(r@[a] == prev[a]);
                } else {
                    assert(r@[prev.len() as int].0 == types@[b]);
                }
            }
            k = k + 1;
        }
        assert forall|t: DeviceType| count_of_type(v, t) > 0 implies
            exists|a: int| 0 <= a < r@.len() && #[trigger] r@[a].0 == t by {
            assert(types@[type_index(t)] == t);
        }
        r
    }

    /// How many devices are registered.
    pub fn device_count(&self) -> (n: usize)
        ensures
            n == self.devices_view().len(),
    {
        self.devices.len()
    }

    /// Records a ping: every ping is counted, a successful one is the last
    /// successful ping at `now`, a failed one is counted as failed.
    pub fn record_ping(&mut self, success: bool, now: u64)
        requires
            old(self).wf(),
            old(self).ping_count_spec() < u64::MAX,
        ensures
            final(self).wf(),
            final(self).ping_count_spec() == old(self).ping_count_spec() + 1,
            success ==> final(self).last_ping_spec() == Some(now),
            success ==> final(self).ping_failures_spec() == old(self).ping_failures_spec(),
            !success ==> final(self).last_ping_spec() == old(self).last_ping_spec(),
            !success ==> final(self).ping_failures_spec() == old(self).ping_failures_spec() + 1,
            final(self).devices_view() == old(self).devices_view(),
            final(self).update_count_spec() == old(self).update_count_spec(),
            final(self).connection_status_spec() == old(self).connection_status_spec(),
    {
        self.ping_count = self.ping_count + 1;
        if success {
            self.last_ping = Some(now);
        } else {
            self.ping_failures = self.ping_failures + 1;
        }
    }

    /// When the last successful ping was recorded.
    pub fn last_ping(&self) -> (p: Option<u64>)
        ensures
            p == self.last_ping_spec(),
    {
        self.last_ping
    }

    /// Whole seconds since the last successful ping, if there was one.
    pub fn seconds_since_last_ping(&self, now: u64) -> (s: Option<u64>)
        ensures
            s == match self.last_ping_spec() {
                Some(t) => Some(seconds_between(t, now)),
                None => None::<u64>,
            },
    {
        match self.last_ping {
            Some(t) => Some(seconds_since(t, now)),
            None => None,
        }
    }

    /// How many pings were recorded.
    pub fn ping_count(&self) -> (n: u64)
        ensures
            n == self.ping_count_spec(),
    {
        self.ping_count
    }

    /// How many recorded pings failed.
    pub fn ping_failures(&self) -> (n: u64)
        requires
            self.wf(),
        ensures
            n == self.ping_failures_spec(),
            n <= self.ping_count_spec(),
    {
        self.ping_failures
    }

    /// How many status updates were received.
    pub fn update_count(&self) -> (n: u64)
        ensures
            n == self.update_count_spec(),
    {
        self.update_count
    }

    /// Records the last error, or clears it.
    pub fn set_error(&mut self, error: Option<String>)
        requires
            old(self).wf(),
        ensures
            final(self).wf(),
            error is None ==> final(self).last_error_spec() is None,
            error matches Some(e) ==> final(self).last_error_spec() == Some(e@),
            final(self).devices_view() == old(self).devices_view(),
    {
        self.last_error = error;
    }

    /// The last error recorded, if any.
    pub fn last_error(&self) -> (e: Option<String>)
        ensures
            self.last_error_spec() is None <==> e is None,
            e matches Some(x) ==> self.last_error_spec() == Some(x@),
    {
        copy_opt_string(&self.last_error)
    }

    /// A snapshot of the state at `now`.
    pub fn summary(&self, now: u64) -> (s: BridgeStateSummary)
        requires
            self.wf(),
        ensures
            s.uptime_seconds == seconds_between(self.start_time_spec(), now),
            s.connection_status == self.connection_status_spec(),
            s.is_paired == self.is_paired_spec(),
            s.pairing_pin@ == self.pairing_pin_spec(),
            s.pairing_url@ == self.pairing_url_spec(),
            s.device_count == self.devices_view().len(),
            counts_match(s.device_counts@, self.devices_view()),
            s.last_ping_seconds_ago == match self.last_ping_spec() {
                Some(t) => Some(seconds_between(t, now)),
                None => None::<u64>,
            },
            s.ping_count == self.ping_count_spec(),
            s.ping_failures == self.ping_failures_spec(),
            s.ping_failures <= s.ping_count,
            s.update_count == self.update_count_spec(),
            self.hub_host_spec() is None <==> s.hub_host is None,
            s.hub_host matches Some(x) ==> self.hub_host_spec() == Some(x@),
            self.last_error_spec() is None <==> s.last_error is None,
            s.last_error matches Some(x) ==> self.last_error_spec() == Some(x@),
    {
        BridgeStateSummary {
            uptime_seconds: seconds_since(self.start_time, now),
            connection_status: self.connection_status,
            is_paired: self.is_paired,
            pairing_pin: self.pairing_pin.clone(),
            pairing_url: self.pairing_url.clone(),
            device_count: self.devices.len(),
            device_counts: self.device_counts(),
            last_ping_seconds_ago: self.seconds_since_last_ping(now),
            ping_count: self.ping_count,
            ping_failures: self.ping_failures,
            update_count: self.update_count,
            hub_host: copy_opt_string(&self.hub_host),
            last_error: copy_opt_string(&self.last_error),
        }
    }
}

/// The uptime as shown to people: `"{d}d {h}h {m}m {s}s"`, leaving out the
/// leading units that are zero (the seconds are always shown).
pub open spec fn uptime_text(secs: u64) -> Seq<char> {
    let days = secs / 86400;
    let hours = (secs % 86400) / 3600;
    let mins = (secs % 3600) / 60;
    let s = secs % 60;
    let tail = decimal(mins as nat) + "m "@ + decimal(s as nat) + "s"@;
    if days > 0 {
        decimal(days as nat) + "d "@ + decimal(hours as nat) + "h "@ + tail
    } else if hours > 0 {
        decimal(hours as nat) + "h "@ + tail
    } else if mins > 0 {
        tail
    } else {
        decimal(s as nat) + "s"@
    }
}

impl BridgeStateSummary {
    /// The uptime as shown to people (see [`uptime_text`]).
    pub fn uptime_display(&self) -> (t: String)
        ensures
            t@ == uptime_text(self.uptime_seconds),
    {
        let secs = self.uptime_seconds;
        let days = secs / 86400;
        let hours = (secs % 86400) / 3600;
        let mins = (secs % 3600) / 60;
        let s = secs % 60;
        let mut out = String::new();
        if days > 0 {
            push_decimal(&mut out, days);
            out.append("d ");
        }
        if days > 0 || hours > 0 {
            push_decimal(&mut out, hours);
            out.append("h ");
        }
        if days > 0 || hours > 0 || mins > 0 {
            push_decimal(&mut out, mins);
            out.append("m ");
        }
        push_decimal(&mut out, s);
        out.append("s");
        assert(out@ =~= uptime_text(secs));
        out
    }
}

/// A bridge is healthy when it is connected to the hub and pinged it
/// successfully less than two minutes ago.
pub open spec fn healthy(summary: BridgeStateSummary) -> bool {
    &&& summary.connection_status == ConnectionStatus::Connected
    &&& summary.last_ping_seconds_ago matches Some(s) && s < 120
}

/// Whether the bridge is healthy (see [`healthy`]).
pub fn is_healthy(summary: &BridgeStateSummary) -> (b: bool)
    ensures
        b == healthy(*summary),
{
    summary.connection_status == ConnectionStatus::Connected && match summary.last_ping_seconds_ago {
        Some(s) => s < 120,
        None => false,
    }
}

/// The number of devices of kind `t` that per-kind counts give: the count
/// listed for `t`, 0 when the kind is not listed.
pub open spec fn listed_count(counts: Seq<(DeviceType, usize)>, t: DeviceType) -> int {
    if exists|k: int| 0 <= k < counts.len() && counts[k].0 == t {
        counts[choose|k: int| 0 <= k < counts.len() && counts[k].0 == t].1 as int
    } else {
        0
    }
}

/// The number of devices of kind `t` in per-kind counts (0 when the kind is
/// not listed); with counts made by [`BridgeState::device_counts`] it is the
/// number of devices of that kind.
pub fn count_for(counts: &Vec<(DeviceType, usize)>, t: DeviceType) -> (n: usize)
    ensures
        forall|devices: Seq<DeviceView>| counts_match(counts@, devices) ==> n == count_of_type(devices, t),
        (forall|a: int, b: int| 0 <= a < b < counts@.len() ==> counts@[a].0 != counts@[b].0)
            ==> n == listed_count(counts@, t),
{
    let mut i: usize = 0;
    while i < counts.len()
        invariant
            i <= counts@.len(),
            forall|k: int| 0 <= k < i ==> counts@[k].0 != t,
        decreases counts@.len() - i,
    {
        if counts[i].0 == t {
            proof {
                assert forall|devices: Seq<DeviceView>| counts_match(counts@, devices) implies
                    counts@[i as int].1 == count_of_type(devices, t) by {}
                if forall|a: int, b: int| 0 <= a < b < counts@.len() ==> counts@[a].0 != counts@[b].0 {
                    let k = choose|k: int| 0 <= k < counts@.len() && counts@[k].0 == t;
                    assert(k == i as int);
                }
            }
            return counts[i].1;
        }
        i = i + 1;
    }
    proof {
        assert forall|devices: Seq<DeviceView>| counts_match(counts@, devices) implies
            0 == count_of_type(devices, t) by {
            if count_of_type(devices, t) > 0 {
                let k = choose|k: int| 0 <= k < counts@.len() && #[trigger] counts@[k].0 == t;
                assert(counts@[k].0 != t);
            }
        }
    }
    0
}

/// How long ago a device's last status arrived, as shown in the device
/// list: `"{n}s ago"`, or `never` when none arrived.
pub open spec fn last_update_text(last_update: Option<u64>, now: u64) -> Seq<char> {
    match last_update {
        Some(t) => decimal(seconds_between(t, now) as nat) + "s ago"@,
        None => "never"@,
    }
}

/// How long ago a device's last status arrived (see [`last_update_text`]).
pub fn last_update_display(last_update: Option<u64>, now: u64) -> (t: String)
    ensures
        t@ == last_update_text(last_update, now),
{
    match last_update {
        Some(at) => {
            let mut out = String::new();
            push_decimal(&mut out, seconds_since(at, now));
            out.append("s ago");
            out
        },
        None => String::from_str("never"),
    }
}

/// Whether the pairing QR code can be shown: the pairing url and pin are
/// both known.
pub fn pairing_available(summary: &BridgeStateSummary) -> (b: bool)
    ensures
        b == (summary.pairing_url@.len() > 0 && summary.pairing_pin@.len() > 0),
{
    summary.pairing_url.unicode_len() > 0 && summary.pairing_pin.unicode_len() > 0
}

/// The devices of each kind added up.
pub open spec fn total_of_counts(devices: Seq<DeviceView>) -> nat {
    count_of_type(devices, DeviceType::Light) + count_of_type(devices, DeviceType::Thermostat)
        + count_of_type(devices, DeviceType::WindowCovering) + count_of_type(devices, DeviceType::Door)
        + count_of_type(devices, DeviceType::Doorbell)
}

/// The per-kind device counts of the web UI add up to the number of
/// registered devices.
pub proof fn lemma_counts_add_up(devices: Seq<DeviceView>)
    ensures
        total_of_counts(devices) == devices.len(),
    decreases devices.len(),
{
    if devices.len() == 0 {
        assert(devices.filter(of_type(DeviceType::Light)) =~= Seq::<DeviceView>::empty());
        assert(devices.filter(of_type(DeviceType::Thermostat)) =~= Seq::<DeviceView>::empty());
        assert(devices.filter(of_type(DeviceType::WindowCovering)) =~= Seq::<DeviceView>::empty());
        assert(devices.filter(of_type(DeviceType::Door)) =~= Seq::<DeviceView>::empty());
        assert(devices.filter(of_type(DeviceType::Doorbell)) =~= Seq::<DeviceView>::empty());
    } else {
        let init = devices.drop_last();
        let x = devices.last();
        assert(devices =~= init.push(x));
        lemma_counts_add_up(init);
        init.lemma_filter_push(x, of_type(DeviceType::Light));
        init.lemma_filter_push(x, of_type(DeviceType::Thermostat));
        init.lemma_filter_push(x, of_type(DeviceType::WindowCovering));
        init.lemma_filter_push(x, of_type(DeviceType::Door));
        init.lemma_filter_push(x, of_type(DeviceType::Doorbell));
    }
}

/// Registering a device and then looking it up gives it back: afterwards
/// the device is registered under its id, ids stay unique, and the number of
/// devices grows by one exactly when the id was new.
pub proof fn lemma_register_then_lookup(devices: Seq<DeviceView>, d: DeviceView)
    requires
        ids_unique(devices),
    ensures
        ids_unique(registered(devices, d)),
        position_of(registered(devices, d), d.id) matches Some(i) && registered(devices, d)[i] == d,
        registered(devices, d).len() == devices.len() + (if position_of(devices, d.id) is Some { 0int } else { 1int }),
{
    let r = registered(devices, d);
    match position_of(devices, d.id) {
        Some(i) => {
            assert(r[i] == d);
            assert(position_of(r, d.id) == Some(i)) by {
                let j = choose|j: int| 0 <= j < r.len() && r[j].id == d.id;
                if j != i {
                    assert(devices[j].id == d.id);
                }
            }
        },
        None => {
            let n = devices.len() as int;
            assert(r[n] == d);
            assert(position_of(r, d.id) == Some(n)) by {
                let j = choose|j: int| 0 <= j < r.len() && r[j].id == d.id;
                if j != n {
                    assert(devices[j].id == d.id);
                }
            }
        },
    }
}

/// A status update for a registered device is what a later lookup returns,
/// with the update time; other devices are unchanged, ids stay unique.
pub proof fn lemma_status_update_then_lookup(devices: Seq<DeviceView>, id: Seq<char>, status: Seq<char>, now: u64)
    requires
        ids_unique(devices),
        position_of(devices, id) is Some,
    ensures
        ids_unique(status_updated(devices, id, status, now)),
        ({
            let i = position_of(devices, id).unwrap();
            let r = status_updated(devices, id, status, now);
            &&& position_of(r, id) == Some(i)
            &&& r[i].status == status
            &&& r[i].last_update == Some(now)
            &&& r[i].id == devices[i].id && r[i].name == devices[i].name && r[i].device_type == devices[i].device_type
            &&& forall|j: int| 0 <= j < r.len() && j != i ==> r[j] == devices[j]
        }),
{
    let i = position_of(devices, id).unwrap();
    let r = status_updated(devices, id, status, now);
    assert(position_of(r, id) == Some(i)) by {
        let j = choose|j: int| 0 <= j < r.len() && r[j].id == id;
        if j != i {
            assert(devices[j].id == id);
        }
    }
}

} // verus!

//! Bridge set-up: settings, the order and ids of the accessories, and the
//! device statuses shown by the web UI.
use vstd::prelude::*;
use crate::covering::WindowCoveringSettings;
use crate::protocol::DeviceStatus;
use crate::bridge_state::{DeviceInfo, DeviceType, DeviceView};
use crate::devices::{device_id_of, device_name_of, HomeDeviceData};

verus! {

/// Door timings as configured, in seconds.
#[derive(Debug, Clone, PartialEq, Eq, Structural)]
pub struct DoorSettings {
    pub opening_closing_time: u64,
    pub opened_time: u64,
}

impl Default for DoorSettings {
    /// A minute to open or close, a minute open.
    fn default() -> (s: DoorSettings)
        ensures
            s.opening_closing_time == 60,
            s.opened_time == 60,
    {
        DoorSettings { opening_closing_time: 60, opened_time: 60 }
    }
}

/// The bridge's settings.
#[derive(Debug, Clone)]
pub struct Settings {
    /// HomeKit pairing code, eight digits.
    pub pairing_code: [u8; 8],
    pub mount_lights: Option<bool>,
    pub mount_window_covering: Option<bool>,
    pub mount_thermo: Option<bool>,
    pub mount_doors: Option<bool>,
    pub mount_doorbells: Option<bool>,
    pub window_covering: WindowCoveringSettings,
    pub door: DoorSettings,
}

impl Default for Settings {
    /// Pairing code 111-22-333; lights, coverings, thermostats and doors are
    /// mounted, doorbells are not; default timings.
    fn default() -> (s: Settings)
        ensures
            s.pairing_code@ == seq![1u8, 1, 1, 2, 2, 3, 3, 3],
            s.mount_lights == Some(true),
            s.mount_window_covering == Some(true),
            s.mount_thermo == Some(true),
            s.mount_doors == Some(true),
            s.mount_doorbells == Some(false),
            s.window_covering == (WindowCoveringSettings { opening_time: 35, closing_time: 35 }),
            s.door == (DoorSettings { opening_closing_time: 60, opened_time: 60 }),
    {
        let s = Settings {
            pairing_code: [1, 1, 1, 2, 2, 3, 3, 3],
            mount_lights: Some(true),
            mount_window_covering: Some(true),
            mount_thermo: Some(true),
            mount_doors: Some(true),
            mount_doorbells: Some(false),
            window_covering: WindowCoveringSettings::default(),
            door: DoorSettings::default(),
        };
        assert(s.pairing_code@ =~= seq![1u8, 1, 1, 2, 2, 3, 3, 3]);
        s
    }
}

/// Web UI settings.
#[derive(Debug, Clone, Copy, PartialEq, Eq, Structural)]
pub struct WebConfig {
    pub port: u16,
    pub enabled: bool,
}

impl Default for WebConfig {
    /// Enabled on port 8080.
    fn default() -> (c: WebConfig)
        ensures
            c.port == 8080,
            c.enabled,
    {
        WebConfig { port: 8080, enabled: true }
    }
}

/// Whether a category is mounted: an absent setting means it is not.
pub fn is_mounted(setting: Option<bool>) -> (b: bool)
    ensures
        b == (setting == Some(true)),
{
    match setting {
        Some(b) => b,
        None => false,
    }
}

/// The accessory ids of the device categories, mounted in the given order:
/// the bridge itself is accessory 1; the devices of each mounted category
/// take the following ids in turn; categories not mounted take none.
/// Returned is, per category, the first id its devices take.
pub open spec fn first_ids(counts: Seq<usize>, mounted: Seq<bool>) -> Seq<int>
    decreases counts.len(),
{
    if counts.len() == 0 {
        Seq::empty()
    } else {
        let init = first_ids(counts.drop_last(), mounted.subrange(0, counts.len() - 1));
        let next = ids_used(counts.drop_last(), mounted.subrange(0, counts.len() - 1)) + 2;
        init.push(next)
    }
}

/// How many ids the mounted categories take.
pub open spec fn ids_used(counts: Seq<usize>, mounted: Seq<bool>) -> int
    decreases counts.len(),
{
    if counts.len() == 0 {
        0
    } else {
        ids_used(counts.drop_last(), mounted.subrange(0, counts.len() - 1))
            + if mounted[counts.len() - 1] { counts.last() as int } else { 0 }
    }
}

/// The first accessory id of each category (see [`first_ids`]): the `k`-th
/// device (from 0) of a mounted category `c` is accessory `r[c] + k`.
pub fn accessory_first_ids(counts: &Vec<usize>, mounted: &Vec<bool>) -> (r: Vec<u64>)
    requires
        counts@.len() == mounted@.len(),
        ids_used(counts@, mounted@) + 2 <= u64::MAX,
    ensures
        r@.len() == counts@.len(),
        first_ids(counts@, mounted@).len() == counts@.len(),
        forall|c: int| 0 <= c < r@.len() ==> r@[c] == first_ids(counts@, mounted@)[c],
{
    let mut r: Vec<u64> = Vec::new();
    let mut used: u64 = 0;
    let mut c: usize = 0;
    while c < counts.len()
        invariant
            counts@.len() == mounted@.len(),
            c <= counts@.len(),
            used == ids_used(counts@.subrange(0, c as int), mounted@.subrange(0, c as int)),
            r@.len() == c,
            forall|k: int| 0 <= k < c ==> r@[k] == first_ids(counts@.subrange(0, c as int), mounted@.subrange(0, c as int))[k],
            ids_used(counts@, mounted@) + 2 <= u64::MAX,
        decreases counts@.len() - c,
    {
        proof { lemma_ids_used_prefix(counts@, mounted@, c as int + 1); }
        let ghost cs = counts@.subrange(0, c as int + 1);
        let ghost ms = mounted@.subrange(0, c as int + 1);
        assert(cs.drop_last() =~= counts@.subrange(0, c as int));
        assert(ms.subrange(0, c as int) =~= mounted@.subrange(0, c as int));
        r.push(used + 2);
        proof {
            lemma_first_ids_len(counts@.subrange(0, c as int), mounted@.subrange(0, c as int));
            assert(first_ids(cs, ms) =~= first_ids(counts@.subrange(0, c as int), mounted@.subrange(0, c as int)).push(used + 2));
        }
        if mounted[c] {
            used = used + counts[c] as u64;
        }
        c = c + 1;
    }
    assert(counts@.subrange(0, c as int) =~= counts@);
    assert(mounted@.subrange(0, c as int) =~= mounted@);
    proof { lemma_first_ids_len(counts@, mounted@); }
    r
}

/// There is one first id per category.
proof fn lemma_first_ids_len(counts: Seq<usize>, mounted: Seq<bool>)
    ensures
        first_ids(counts, mounted).len() == counts.len(),
    decreases counts.len(),
{
    if counts.len() > 0 {
        lemma_first_ids_len(counts.drop_last(), mounted.subrange(0, counts.len() - 1));
    }
}

/// The ids a prefix of the categories takes are no more than all of them
/// take.
proof fn lemma_ids_used_prefix(counts: Seq<usize>, mounted: Seq<bool>, n: int)
    requires
        0 <= n <= counts.len(),
        counts.len() == mounted.len(),
    ensures
        0 <= ids_used(counts.subrange(0, n), mounted.subrange(0, n)) <= ids_used(counts, mounted),
    decreases counts.len(),
{
    if n == counts.len() {
        assert(counts.subrange(0, n) =~= counts);
        assert(mounted.subrange(0, n) =~= mounted);
        lemma_ids_used_nonneg(counts, mounted);
    } else {
        let ci = counts.drop_last();
        let mi = mounted.subrange(0, counts.len() - 1);
        lemma_ids_used_prefix(ci, mi, n);
        assert(ci.subrange(0, n) =~= counts.subrange(0, n));
        assert(mi.subrange(0, n) =~= mounted.subrange(0, n));
    }
}

proof fn lemma_ids_used_nonneg(counts: Seq<usize>, mounted: Seq<bool>)
    ensures
        ids_used(counts, mounted) >= 0,
    decreases counts.len(),
{
    if counts.len() > 0 {
        lemma_ids_used_nonneg(counts.drop_last(), mounted.subrange(0, counts.len() - 1));
    }
}

/// The first id of a category is 2 plus the ids the categories before it
/// take.
proof fn lemma_first_id_after_prefix(counts: Seq<usize>, mounted: Seq<bool>, c: int)
    requires
        counts.len() == mounted.len(),
        0 <= c < counts.len(),
    ensures
        first_ids(counts, mounted)[c] == ids_used(counts.subrange(0, c), mounted.subrange(0, c)) + 2,
    decreases counts.len(),
{
    let n = counts.len() - 1;
    lemma_first_ids_len(counts.drop_last(), mounted.subrange(0, n));
    if c == n {
        assert(counts.drop_last() =~= counts.subrange(0, n));
    } else {
        lemma_first_id_after_prefix(counts.drop_last(), mounted.subrange(0, n), c);
        assert(counts.drop_last().subrange(0, c) =~= counts.subrange(0, c));
        assert(mounted.subrange(0, n).subrange(0, c) =~= mounted.subrange(0, c));
    }
}

/// The ids the first `a + 1` categories take are those of the first `a`
/// plus the devices of category `a` when it is mounted.
proof fn lemma_ids_used_step(counts: Seq<usize>, mounted: Seq<bool>, a: int)
    requires
        counts.len() == mounted.len(),
        0 <= a < counts.len(),
    ensures
        ids_used(counts.subrange(0, a + 1), mounted.subrange(0, a + 1))
            == ids_used(counts.subrange(0, a), mounted.subrange(0, a))
            + if mounted[a] { counts[a] as int } else { 0 },
{
    assert(counts.subrange(0, a + 1).drop_last() =~= counts.subrange(0, a));
    assert(mounted.subrange(0, a + 1).subrange(0, a) =~= mounted.subrange(0, a));
}

/// The ids taken by a prefix of the categories grow with the prefix.
proof fn lemma_ids_used_monotone(counts: Seq<usize>, mounted: Seq<bool>, a: int, b: int)
    requires
        counts.len() == mounted.len(),
        0 <= a <= b <= counts.len(),
    ensures
        ids_used(counts.subrange(0, a), mounted.subrange(0, a))
            <= ids_used(counts.subrange(0, b), mounted.subrange(0, b)),
{
    lemma_ids_used_prefix(counts.subrange(0, b), mounted.subrange(0, b), a);
    assert(counts.subrange(0, b).subrange(0, a) =~= counts.subrange(0, a));
    assert(mounted.subrange(0, b).subrange(0, a) =~= mounted.subrange(0, a));
}

/// Accessory ids never collide: every category's ids start at 2 or later
/// (1 is the bridge), and the ids of a mounted category end before the
/// first id of every later category.
pub proof fn lemma_accessory_ids_disjoint(counts: Seq<usize>, mounted: Seq<bool>, a: int, b: int)
    requires
        counts.len() == mounted.len(),
        0 <= a < b < counts.len(),
    ensures
        first_ids(counts, mounted)[a] >= 2,
        mounted[a] ==> first_ids(counts, mounted)[a] + counts[a] <= first_ids(counts, mounted)[b],
        first_ids(counts, mounted)[a] <= first_ids(counts, mounted)[b],
{
    lemma_first_id_after_prefix(counts, mounted, a);
    lemma_first_id_after_prefix(counts, mounted, b);
    lemma_ids_used_prefix(counts, mounted, a);
    lemma_ids_used_step(counts, mounted, a);
    lemma_ids_used_monotone(counts, mounted, a + 1, b);
}

/// Whether the hub reports a device on or running.
pub open spec fn reported_on(status: Option<DeviceStatus>) -> bool {
    status == Some(DeviceStatus::On) || status == Some(DeviceStatus::Running)
}

/// Status shown for a light: `on` when the hub reports it on or running,
/// `off` otherwise.
pub open spec fn light_status_of(status: Option<DeviceStatus>) -> Seq<char> {
    if reported_on(status) { "on"@ } else { "off"@ }
}

/// Status shown for a door: `open` when the hub reports it on or running,
/// `closed` otherwise.
pub open spec fn door_status_of(status: Option<DeviceStatus>) -> Seq<char> {
    if reported_on(status) { "open"@ } else { "closed"@ }
}

/// Status shown for a window covering: the name of the reported status,
/// `unknown` when there is none.
pub open spec fn covering_status_of(status: Option<DeviceStatus>) -> Seq<char> {
    match status {
        Some(DeviceStatus::Off) => "Off"@,
        Some(DeviceStatus::On) => "On"@,
        Some(DeviceStatus::Running) => "Running"@,
        None => "unknown"@,
    }
}

/// Status shown for a thermostat: the reported temperature text followed by
/// `°C`, `--` when there is none.
pub open spec fn thermostat_status_of(temperature: Option<String>) -> Seq<char> {
    match temperature {
        Some(t) => t@ + "°C"@,
        None => "--"@ + "°C"@,
    }
}

/// Status shown for a light (see [`light_status_of`]).
pub fn light_status_text(status: Option<DeviceStatus>) -> (s: &'static str)
    ensures
        s@ == light_status_of(status),
{
    match status {
        Some(DeviceStatus::On) | Some(DeviceStatus::Running) => "on",
        _ => "off",
    }
}

/// Status shown for a door (see [`door_status_of`]).
pub fn door_status_text(status: Option<DeviceStatus>) -> (s: &'static str)
    ensures
        s@ == door_status_of(status),
{
    match status {
        Some(DeviceStatus::On) | Some(DeviceStatus::Running) => "open",
        _ => "closed",
    }
}

/// Status shown for a window covering (see [`covering_status_of`]).
pub fn covering_status_text(status: Option<DeviceStatus>) -> (s: &'static str)
    ensures
        s@ == covering_status_of(status),
{
    match status {
        Some(DeviceStatus::Off) => "Off",
        Some(DeviceStatus::On) => "On",
        Some(DeviceStatus::Running) => "Running",
        None => "unknown",
    }
}

/// Status shown for a thermostat (see [`thermostat_status_of`]).
pub fn thermostat_status_text(temperature: &Option<String>) -> (s: String)
    ensures
        s@ == thermostat_status_of(*temperature),
{
    let mut s = match temperature {
        Some(t) => t.clone(),
        None => String::from_str("--"),
    };
    s.append("°C");
    s
}

/// The kind of bridged device a report from the hub is counted for: lights,
/// coverings, thermostats, doors and doorbells; other devices are not
/// bridged.
pub open spec fn bridged_kind(d: HomeDeviceData) -> Option<DeviceType> {
    match d {
        HomeDeviceData::Light(_) => Some(DeviceType::Light),
        HomeDeviceData::WindowCovering(_) => Some(DeviceType::WindowCovering),
        HomeDeviceData::Thermostat(_) => Some(DeviceType::Thermostat),
        HomeDeviceData::Door(_) => Some(DeviceType::Door),
        HomeDeviceData::Doorbell(_) => Some(DeviceType::Doorbell),
        _ => None,
    }
}

/// The status a report gives a bridged device: the status text of its kind;
/// a doorbell's report carries none.
pub open spec fn reported_status(d: HomeDeviceData) -> Option<Seq<char>> {
    match d {
        HomeDeviceData::Light(o) => Some(light_status_of(o.status)),
        HomeDeviceData::WindowCovering(o) => Some(covering_status_of(o.status)),
        HomeDeviceData::Thermostat(o) => Some(thermostat_status_of(o.temperature)),
        HomeDeviceData::Door(o) => Some(door_status_of(o.status)),
        _ => None,
    }
}

/// What a status report from the hub does to the bridge's bookkeeping: it
/// counts as an update of a device of `device_type`, and records `status`
/// for the device when there is one.
#[derive(Debug)]
pub struct DeviceUpdate {
    pub device_type: DeviceType,
    pub status: Option<String>,
}

/// What a status report from the hub does to the bridge's bookkeeping (see
/// [`bridged_kind`] and [`reported_status`]); nothing for devices that are
/// not bridged.
pub fn device_update_of(device: &HomeDeviceData) -> (r: Option<DeviceUpdate>)
    ensures
        r is None <==> bridged_kind(*device) is None,
        r matches Some(u) ==> Some(u.device_type) == bridged_kind(*device)
            && (u.status is None <==> reported_status(*device) is None)
            && (u.status matches Some(t) ==> reported_status(*device) == Some(t@)),
{
    match device {
        HomeDeviceData::Light(o) => Some(DeviceUpdate {
            device_type: DeviceType::Light,
            status: Some(String::from_str(light_status_text(o.status))),
        }),
        HomeDeviceData::WindowCovering(o) => Some(DeviceUpdate {
            device_type: DeviceType::WindowCovering,
            status: Some(String::from_str(covering_status_text(o.status))),
        }),
        HomeDeviceData::Thermostat(o) => Some(DeviceUpdate {
            device_type: DeviceType::Thermostat,
            status: Some(thermostat_status_text(&o.temperature)),
        }),
        HomeDeviceData::Door(o) => Some(DeviceUpdate {
            device_type: DeviceType::Door,
            status: Some(String::from_str(door_status_text(o.status))),
        }),
        HomeDeviceData::Doorbell(_) => Some(DeviceUpdate { device_type: DeviceType::Doorbell, status: None }),
        _ => None,
    }
}

/// The status a bridged device is registered with: a door starts `closed`
/// and a doorbell `idle`, whatever their first report says; the other kinds
/// start with the status of their first report (see [`reported_status`]).
pub open spec fn initial_status(d: HomeDeviceData) -> Seq<char> {
    match d {
        HomeDeviceData::Door(_) => "closed"@,
        HomeDeviceData::Doorbell(_) => "idle"@,
        _ => match reported_status(d) {
            Some(t) => t,
            None => Seq::empty(),
        },
    }
}

/// The record a bridged device is registered with in the bridge state: its
/// id, its description (its id when it has none), its kind, its initial
/// status (see [`initial_status`]) and no update yet. Devices that are not
/// bridged get none.
pub fn registration_of(device: &HomeDeviceData) -> (r: Option<DeviceInfo>)
    ensures
        r is None <==> bridged_kind(*device) is None,
        r matches Some(info) ==> info@ == (DeviceView {
            id: device_id_of(*device),
            name: device_name_of(*device),
            device_type: bridged_kind(*device)->0,
            status: initial_status(*device),
            last_update: None,
        }),
{
    let device_type = match device {
        HomeDeviceData::Light(_) => DeviceType::Light,
        HomeDeviceData::WindowCovering(_) => DeviceType::WindowCovering,
        HomeDeviceData::Thermostat(_) => DeviceType::Thermostat,
        HomeDeviceData::Door(_) => DeviceType::Door,
        HomeDeviceData::Doorbell(_) => DeviceType::Doorbell,
        _ => { return None; },
    };
    let status = match device {
        HomeDeviceData::Door(_) => String::from_str("closed"),
        HomeDeviceData::Doorbell(_) => String::from_str("idle"),
        _ => match device_update_of(device) {
            Some(DeviceUpdate { status: Some(t), .. }) => t,
            _ => String::new(),
        },
    };
    Some(DeviceInfo {
        id: device.id(),
        name: device.name(),
        device_type,
        status,
        last_update: None,
    })
}

/// Whether text `a` comes before text `b` in the order of their characters
/// (the order of Rust's strings).
pub open spec fn text_less(a: Seq<char>, b: Seq<char>) -> bool
    decreases a.len(),
{
    if a.len() == 0 {
        b.len() > 0
    } else if b.len() == 0 {
        false
    } else if a[0] != b[0] {
        (a[0] as int) < (b[0] as int)
    } else {
        text_less(a.drop_first(), b.drop_first())
    }
}

/// Whether id `i` comes before id `j` when sorting stably: a smaller text,
/// or the same text listed earlier.
pub open spec fn sorted_before(ids: Seq<Seq<char>>, i: int, j: int) -> bool {
    text_less(ids[i], ids[j]) || (ids[i] == ids[j] && i < j)
}

/// `order` lists every position of `ids` once, in ascending order of the
/// ids; equal ids keep their listed order.
pub open spec fn sorted_by_id(ids: Seq<Seq<char>>, order: Seq<usize>) -> bool {
    &&& order.len() == ids.len()
    &&& forall|k: int| 0 <= k < order.len() ==> order[k] < ids.len()
    &&& forall|i: int| 0 <= i < ids.len() ==> #[trigger] order.contains(i as usize)
    &&& forall|a: int, b: int| 0 <= a < b < order.len() ==>
        sorted_before(ids, #[trigger] order[a] as int, #[trigger] order[b] as int)
}

/// Whether `a` comes before `b` in the order of their characters.
fn str_less(a: &str, b: &str) -> (r: bool)
    ensures
        r == text_less(a@, b@),
{
    let n = a.unicode_len();
    let m = b.unicode_len();
    let mut i: usize = 0;
    assert(a@.skip(0) =~= a@);
    assert(b@.skip(0) =~= b@);
    while i < n && i < m
        invariant
            n == a@.len(),
            m == b@.len(),
            i <= n,
            i <= m,
            forall|j: int| 0 <= j < i ==> a@[j] == b@[j],
            text_less(a@, b@) == text_less(a@.skip(i as int), b@.skip(i as int)),
        decreases n - i,
    {
        let x = a.get_char(i);
        let y = b.get_char(i);
        proof {
            assert(a@.skip(i as int)[0] == x);
            assert(b@.skip(i as int)[0] == y);
            assert(a@.skip(i as int).drop_first() =~= a@.skip(i + 1));
            assert(b@.skip(i as int).drop_first() =~= b@.skip(i + 1));
        }
        if x != y {
            return (x as u32) < (y as u32);
        }
        i = i + 1;
    }
    i < m && i == n
}

/// Text order is transitive.
proof fn lemma_text_less_transitive(a: Seq<char>, b: Seq<char>, c: Seq<char>)
    requires
        text_less(a, b),
        text_less(b, c),
    ensures
        text_less(a, c),
    decreases a.len(),
{
    if a.len() > 0 && b.len() > 0 && c.len() > 0 && a[0] == b[0] && b[0] == c[0] {
        lemma_text_less_transitive(a.drop_first(), b.drop_first(), c.drop_first());
    }
}

/// Text order is a strict total order on distinct texts.
proof fn lemma_text_less_total(a: Seq<char>, b: Seq<char>)
    ensures
        a != b ==> text_less(a, b) || text_less(b, a),
        !(text_less(a, b) && text_less(b, a)),
        !text_less(a, a),
    decreases a.len(),
{
    if a.len() > 0 && b.len() > 0 {
        lemma_text_less_total(a.drop_first(), b.drop_first());
        lemma_text_less_total(a.drop_first(), a.drop_first());
        if a[0] == b[0] && a != b {
            if a.drop_first() == b.drop_first() {
                assert forall|i: int| 0 <= i < a.len() implies a[i] == b[i] by {
                    if i > 0 {
                        assert(a[i] == a.drop_first()[i - 1]);
                        assert(b[i] == b.drop_first()[i - 1]);
                    }
                }
                assert(a =~= b);
            }
        }
        if a[0] != b[0] {
            assert((a[0] as int) != (b[0] as int));
        }
    } else if a.len() > 0 {
        lemma_text_less_total(a.drop_first(), a.drop_first());
    } else if b.len() == 0 {
        assert(a =~= b);
    }
}

/// The positions of `ids` in ascending order of the ids, equal ids in their
/// listed order (a stable sort by id).
pub fn sort_by_id(ids: &Vec<String>) -> (order: Vec<usize>)
    ensures
        sorted_by_id(ids@.map_values(|s: String| s@), order@),
{
    let ghost v = ids@.map_values(|s: String| s@);
    let mut order: Vec<usize> = Vec::new();
    let mut k: usize = 0;
    while k < ids.len()
        invariant
            k <= ids@.len(),
            v == ids@.map_values(|s: String| s@),
            order@.len() == k,
            forall|a: int| 0 <= a < order@.len() ==> order@[a] < k,
            forall|i: int| 0 <= i < k ==> #[trigger] order@.contains(i as usize),
            forall|a: int, b: int| 0 <= a < b < order@.len() ==>
                sorted_before(v, #[trigger] order@[a] as int, #[trigger] order@[b] as int),
        decreases ids@.len() - k,
    {
        // Ids no greater than id k stay ahead of it.
        let mut p: usize = 0;
        while p < order.len() && !str_less(ids[k].as_str(), ids[order[p]].as_str())
            invariant
                p <= order@.len(),
                k < ids@.len(),
                v == ids@.map_values(|s: String| s@),
                forall|a: int| 0 <= a < order@.len() ==> order@[a] < k,
                forall|a: int| 0 <= a < p ==> !text_less(v[k as int], v[order@[a] as int]),
            decreases order@.len() - p,
        {
            p = p + 1;
        }
        let ghost old_order = order@;
        order.insert(p, k);
        proof {
            assert forall|a: int, b: int| 0 <= a < b < order@.len() implies
                sorted_before(v, #[trigger] order@[a] as int, #[trigger] order@[b] as int) by {
                if b == p {
                    let x = old_order[a] as int;
                    assert(order@[a] == old_order[a]);
                    lemma_text_less_total(v[x], v[k as int]);
                } else if a == p {
                    assert(order@[b] == old_order[b - 1]);
                    let y = old_order[p as int] as int;
                    assert(text_less(v[k as int], v[y]));
                    if b - 1 > p {
                        let z = old_order[b - 1] as int;
                        assert(sorted_before(v, y, z));
                        if text_less(v[y], v[z]) {
                            lemma_text_less_transitive(v[k as int], v[y], v[z]);
                        }
                    }
                } else if a < p && b < p {
                    assert(order@[a] == old_order[a] && order@[b] == old_order[b]);
                } else if a < p {
                    assert(order@[a] == old_order[a] && order@[b] == old_order[b - 1]);
                } else {
                    assert(order@[a] == old_order[a - 1] && order@[b] == old_order[b - 1]);
                }
            }
            assert forall|i: int| 0 <= i < k + 1 implies #[trigger] order@.contains(i as usize) by {
                if i < k {
                    assert(old_order.contains(i as usize));
                    let j = choose|j: int| 0 <= j < old_order.len() && old_order[j] == i as usize;
                    if j < p {
                        assert(order@[j] == i as usize);
                    } else {
                        assert(order@[j + 1] == i as usize);
                    }
                } else {
                    assert(order@[p as int] == k);
                }
            }
            assert forall|a: int| 0 <= a < order@.len() implies order@[a] < k + 1 by {
                if a < p {
                    assert(order@[a] == old_order[a]);
                } else if a > p {
                    assert(order@[a] == old_order[a - 1]);
                }
            }
        }
        k = k + 1;
    }
    order
}

} // verus!

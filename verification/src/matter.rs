//! Conversions between the hub's conventions and Matter's, for the Matter
//! bridge: lift positions, movement status, thermostat system modes and
//! setpoints, endpoint matching.
use vstd::prelude::*;
use crate::covering::{FULLY_CLOSED, FULLY_OPENED, PositionState};
use crate::thermostat::TargetHeatingCoolingState;
use crate::text::str_equal;
use crate::bridge::{sort_by_id, sorted_by_id};
use crate::devices::HomeDeviceData;
use crate::protocol::DeviceStatus;

verus! {

/// Matter's lift position for a hub position: Matter counts percent
/// *closed* (0 = fully open), the hub percent open, so positions are
/// inverted; hub positions above 100 count as fully open.
pub open spec fn matter_percent_of(comelit: u8) -> int {
    FULLY_OPENED - (if comelit > FULLY_OPENED { FULLY_OPENED } else { comelit })
}

/// Matter's lift position (percent closed) for a hub position.
pub fn comelit_to_matter_percent(comelit: u8) -> (p: u8)
    ensures
        p == matter_percent_of(comelit),
        p <= 100,
{
    let c = if comelit > FULLY_OPENED { FULLY_OPENED } else { comelit };
    FULLY_OPENED - c
}

/// Matter's lift position in hundredths of a percent closed for a hub
/// position.
pub fn comelit_to_matter_percent_100ths(comelit: u8) -> (p: u16)
    ensures
        p == matter_percent_of(comelit) * 100,
        p <= 10000,
{
    comelit_to_matter_percent(comelit) as u16 * 100
}

/// The hub position for Matter's lift position in hundredths of a percent
/// closed: whole percents are kept (the rest dropped), values beyond 100%
/// count as fully closed.
pub open spec fn comelit_position_of(matter: u16) -> int {
    let pct = matter / 100;
    FULLY_OPENED - (if pct > FULLY_OPENED { FULLY_OPENED as int } else { pct as int })
}

/// The hub position for Matter's lift position in hundredths of a percent
/// closed.
pub fn matter_percent_100ths_to_comelit(matter: u16) -> (c: u8)
    ensures
        c == comelit_position_of(matter),
        c <= 100,
{
    let pct: u16 = matter / 100;
    let pct8: u8 = if pct > FULLY_OPENED as u16 { FULLY_OPENED } else { pct as u8 };
    FULLY_OPENED - pct8
}

/// Matter's operational status bits for a movement: a 2-bit field (0
/// stopped, 1 opening, 2 closing) for the lift (bits 2-3), mirrored onto
/// the global field (bits 0-1); the tilt field stays 0.
pub open spec fn operational_status_bits(p: PositionState) -> int {
    let field = match p {
        PositionState::MovingUp => 1int,
        PositionState::MovingDown => 2int,
        PositionState::Stopped => 0int,
    };
    field + field * 4
}

/// Matter's operational status bits for a movement (see
/// [`operational_status_bits`]).
pub fn operational_status(p: PositionState) -> (bits: u8)
    ensures
        bits == operational_status_bits(p),
{
    let field: u8 = match p {
        PositionState::MovingUp => 1,
        PositionState::MovingDown => 2,
        PositionState::Stopped => 0,
    };
    assert((field | (field << 2)) == field + field * 4) by (bit_vector)
        requires
            field <= 2,
    ;
    field | (field << 2)
}

/// A request of Matter's window covering cluster.
#[derive(Debug, Clone, Copy, PartialEq, Eq, Structural)]
pub enum CoveringRequest {
    UpOrOpen,
    DownOrClose,
    /// Go to a lift position, in hundredths of a percent closed.
    GoToLiftPercentage(u16),
}

/// The hub position a window covering request moves to.
pub open spec fn request_target(r: CoveringRequest) -> int {
    match r {
        CoveringRequest::UpOrOpen => FULLY_OPENED as int,
        CoveringRequest::DownOrClose => FULLY_CLOSED as int,
        CoveringRequest::GoToLiftPercentage(p) => comelit_position_of(p),
    }
}

/// The hub position a window covering request moves to.
pub fn covering_request_target(r: CoveringRequest) -> (t: u8)
    ensures
        t == request_target(r),
{
    match r {
        CoveringRequest::UpOrOpen => FULLY_OPENED,
        CoveringRequest::DownOrClose => FULLY_CLOSED,
        CoveringRequest::GoToLiftPercentage(p) => matter_percent_100ths_to_comelit(p),
    }
}

/// Matter's thermostat system modes.
#[derive(Debug, Clone, Copy, PartialEq, Eq, Structural)]
pub enum SystemMode {
    Off,
    Auto,
    Cool,
    Heat,
    EmergencyHeat,
    Precooling,
    FanOnly,
    Dry,
    Sleep,
}

/// The system mode shown to Matter for a heating/cooling state. `Auto` is
/// never shown (the hub has a single setpoint and the cluster does not
/// declare automatic mode): it reads as `Heat`.
pub open spec fn system_mode_of(s: TargetHeatingCoolingState) -> SystemMode {
    match s {
        TargetHeatingCoolingState::Off => SystemMode::Off,
        TargetHeatingCoolingState::Heat => SystemMode::Heat,
        TargetHeatingCoolingState::Auto => SystemMode::Heat,
        TargetHeatingCoolingState::Cool => SystemMode::Cool,
    }
}

/// The system mode shown to Matter for a heating/cooling state (see
/// [`system_mode_of`]).
pub fn to_system_mode(s: TargetHeatingCoolingState) -> (m: SystemMode)
    ensures
        m == system_mode_of(s),
{
    match s {
        TargetHeatingCoolingState::Off => SystemMode::Off,
        TargetHeatingCoolingState::Heat | TargetHeatingCoolingState::Auto => SystemMode::Heat,
        TargetHeatingCoolingState::Cool => SystemMode::Cool,
    }
}

/// The heating/cooling state a system mode written by Matter asks for:
/// heating modes heat, cooling modes cool, every other mode (automatic, fan,
/// dry, sleep) switches off.
pub open spec fn heating_cooling_of_mode(m: SystemMode) -> TargetHeatingCoolingState {
    match m {
        SystemMode::Off => TargetHeatingCoolingState::Off,
        SystemMode::Heat => TargetHeatingCoolingState::Heat,
        SystemMode::EmergencyHeat => TargetHeatingCoolingState::Heat,
        SystemMode::Cool => TargetHeatingCoolingState::Cool,
        SystemMode::Precooling => TargetHeatingCoolingState::Cool,
        _ => TargetHeatingCoolingState::Off,
    }
}

/// The heating/cooling state a system mode written by Matter asks for (see
/// [`heating_cooling_of_mode`]).
pub fn from_system_mode(m: SystemMode) -> (s: TargetHeatingCoolingState)
    ensures
        s == heating_cooling_of_mode(m),
{
    match m {
        SystemMode::Off => TargetHeatingCoolingState::Off,
        SystemMode::Heat | SystemMode::EmergencyHeat => TargetHeatingCoolingState::Heat,
        SystemMode::Cool | SystemMode::Precooling => TargetHeatingCoolingState::Cool,
        _ => TargetHeatingCoolingState::Off,
    }
}

/// Lowest setpoint accepted, in hundredths of a degree Celsius (7.00 °C).
pub const ABS_MIN_SETPOINT: i16 = 700;

/// Highest setpoint accepted, in hundredths of a degree Celsius (35.00 °C).
pub const ABS_MAX_SETPOINT: i16 = 3500;

/// The setpoint after Matter raises or lowers `current` (hundredths of a
/// degree) by `amount` tenths of a degree: the sum saturates at the `i16`
/// range and is then held within the accepted setpoints.
pub open spec fn raised_setpoint(current: i16, amount: i8) -> int {
    let sum = current + amount * 10;
    let saturated = if sum > i16::MAX { i16::MAX as int } else if sum < i16::MIN { i16::MIN as int } else { sum };
    if saturated < ABS_MIN_SETPOINT {
        ABS_MIN_SETPOINT as int
    } else if saturated > ABS_MAX_SETPOINT {
        ABS_MAX_SETPOINT as int
    } else {
        saturated
    }
}

/// The setpoint after Matter raises or lowers `current` by `amount` (see
/// [`raised_setpoint`]).
pub fn setpoint_raise_lower(current: i16, amount: i8) -> (r: i16)
    ensures
        r == raised_setpoint(current, amount),
        ABS_MIN_SETPOINT <= r <= ABS_MAX_SETPOINT,
{
    let delta: i32 = amount as i32 * 10;
    let sum: i32 = current as i32 + delta;
    let saturated: i32 = if sum > i16::MAX as i32 {
        i16::MAX as i32
    } else if sum < i16::MIN as i32 {
        i16::MIN as i32
    } else {
        sum
    };
    if saturated < ABS_MIN_SETPOINT as i32 {
        ABS_MIN_SETPOINT
    } else if saturated > ABS_MAX_SETPOINT as i32 {
        ABS_MAX_SETPOINT
    } else {
        saturated as i16
    }
}

/// Whether an optional filter (an endpoint or cluster id, none meaning
/// "any") selects `id`.
pub open spec fn selects(filter: Option<u16>, id: u16) -> bool {
    match filter {
        Some(f) => f == id,
        None => true,
    }
}

/// Whether an optional filter selects `id` (see [`selects`]).
pub fn filter_selects(filter: Option<u16>, id: u16) -> (b: bool)
    ensures
        b == selects(filter, id),
{
    match filter {
        Some(f) => f == id,
        None => true,
    }
}

/// The bridge handles every endpoint but the root (0); a request naming no
/// endpoint is handled too.
pub struct NonRootMatcher;

impl NonRootMatcher {
    /// Whether a request for `endpoint` is handled by the bridge.
    pub fn matches(&self, endpoint: Option<u16>) -> (b: bool)
        ensures
            b == match endpoint {
                Some(e) => e >= 1,
                None => true,
            },
    {
        match endpoint {
            Some(e) => e >= 1,
            None => true,
        }
    }
}

/// Endpoint of the aggregator that holds the bridged devices.
pub const AGGREGATOR_ENDPOINT: u16 = 1;

/// The endpoint of the `index`-th bridged device: they follow the root (0)
/// and the aggregator (1). Endpoint ids are 16 bits wide: beyond that the
/// number wraps around.
pub fn bridged_endpoint(index: usize) -> (ep: u16)
    requires
        index + 2 <= usize::MAX,
    ensures
        ep == (index + 2) as u16,
        index + 2 <= u16::MAX ==> ep == index + 2,
{
    (index + 2) as u16
}

/// The endpoints of a bridge with `n` bridged devices: root, aggregator,
/// then one per device (16-bit ids, wrapping around beyond that).
pub open spec fn endpoint_list(n: nat) -> Seq<u16> {
    Seq::new(n + 2, |i: int| i as u16)
}

/// The endpoints of a bridge with `n` bridged devices (see
/// [`endpoint_list`]).
pub fn bridge_endpoints(n: usize) -> (v: Vec<u16>)
    requires
        n + 2 <= usize::MAX,
    ensures
        v@ == endpoint_list(n as nat),
{
    let mut v: Vec<u16> = Vec::new();
    let mut i: usize = 0;
    while i < n + 2
        invariant
            n + 2 <= usize::MAX,
            i <= n + 2,
            v@ == Seq::new(i as nat, |k: int| k as u16),
        decreases n + 2 - i,
    {
        v.push(i as u16);
        i = i + 1;
        assert(v@ =~= Seq::new(i as nat, |k: int| k as u16));
    }
    v
}

/// A request from a Matter controller to switch a light, handed to the task
/// that talks to the hub.
#[derive(Debug, Clone)]
pub struct MqttCommand {
    /// The hub's id of the light.
    pub device_id: String,
    /// Whether the light is to be on.
    pub on: bool,
}

/// The bridged device a report from the hub is for: the first whose hub id
/// is the report's id.
pub fn find_device(ids: &Vec<String>, id: &str) -> (r: Option<usize>)
    ensures
        match r {
            Some(i) => i < ids@.len() && ids@[i as int]@ == id@
                && forall|j: int| 0 <= j < i ==> ids@[j]@ != id@,
            None => forall|j: int| 0 <= j < ids@.len() ==> ids@[j]@ != id@,
        },
{
    let mut i: usize = 0;
    while i < ids.len()
        invariant
            i <= ids@.len(),
            forall|j: int| 0 <= j < i ==> ids@[j]@ != id@,
        decreases ids@.len() - i,
    {
        if str_equal(ids[i].as_str(), id) {
            return Some(i);
        }
        i = i + 1;
    }
    None
}

/// The bridged light an endpoint belongs to: the first with that endpoint.
pub fn find_endpoint(endpoints: &Vec<u16>, ep: u16) -> (r: Option<usize>)
    ensures
        match r {
            Some(i) => i < endpoints@.len() && endpoints@[i as int] == ep
                && forall|j: int| 0 <= j < i ==> endpoints@[j] != ep,
            None => forall|j: int| 0 <= j < endpoints@.len() ==> endpoints@[j] != ep,
        },
{
    let mut i: usize = 0;
    while i < endpoints.len()
        invariant
            i <= endpoints@.len(),
            forall|j: int| 0 <= j < i ==> endpoints@[j] != ep,
        decreases endpoints@.len() - i,
    {
        if endpoints[i] == ep {
            return Some(i);
        }
        i = i + 1;
    }
    None
}

/// Matter's Descriptor cluster.
pub const DESCRIPTOR_CLUSTER: u32 = 0x001D;

/// Matter's Groups cluster.
pub const GROUPS_CLUSTER: u32 = 0x0004;

/// Matter's Bridged Device Basic Information cluster.
pub const BRIDGED_INFO_CLUSTER: u32 = 0x0039;

/// Matter's On/Off cluster.
pub const ON_OFF_CLUSTER: u32 = 0x0006;

/// A cluster of a bridged light's endpoint.
#[derive(Debug, Clone, Copy, PartialEq, Eq, Structural)]
pub enum LightCluster {
    Descriptor,
    Groups,
    BridgedInfo,
    OnOff,
}

/// The id of a light's cluster.
pub open spec fn light_cluster_id(c: LightCluster) -> u32 {
    match c {
        LightCluster::Descriptor => DESCRIPTOR_CLUSTER,
        LightCluster::Groups => GROUPS_CLUSTER,
        LightCluster::BridgedInfo => BRIDGED_INFO_CLUSTER,
        LightCluster::OnOff => ON_OFF_CLUSTER,
    }
}

/// The light cluster a cluster id names, if any.
pub open spec fn light_cluster_of(id: u32) -> Option<LightCluster> {
    if id == DESCRIPTOR_CLUSTER {
        Some(LightCluster::Descriptor)
    } else if id == GROUPS_CLUSTER {
        Some(LightCluster::Groups)
    } else if id == BRIDGED_INFO_CLUSTER {
        Some(LightCluster::BridgedInfo)
    } else if id == ON_OFF_CLUSTER {
        Some(LightCluster::OnOff)
    } else {
        None
    }
}

/// Where the bridge sends a request for an endpoint and a cluster, or the
/// error it answers with.
#[derive(Debug, Clone, Copy, PartialEq, Eq, Structural)]
pub enum MatterRoute {
    /// The aggregator's descriptor.
    Aggregator,
    /// A cluster of the `index`-th bridged light.
    Light { index: usize, cluster: LightCluster },
    EndpointNotFound,
    ClusterNotFound,
    AttributeNotFound,
    CommandNotFound,
}

/// The position of the first light with endpoint `ep`, if any.
pub open spec fn light_at(eps: Seq<u16>, ep: u16) -> Option<int> {
    if exists|i: int| 0 <= i < eps.len() && eps[i] == ep {
        Some(choose|i: int| 0 <= i < eps.len() && eps[i] == ep && forall|j: int| 0 <= j < i ==> eps[j] != ep)
    } else {
        None
    }
}

/// Where an attribute read goes: endpoint 1 is the aggregator; a light's
/// endpoint serves its four clusters (another cluster is not found); any
/// other endpoint is not found.
pub open spec fn read_route_of(ep: u16, cluster: u32, eps: Seq<u16>) -> MatterRoute {
    if ep == AGGREGATOR_ENDPOINT {
        MatterRoute::Aggregator
    } else {
        match light_at(eps, ep) {
            Some(i) => match light_cluster_of(cluster) {
                Some(c) => MatterRoute::Light { index: i as usize, cluster: c },
                None => MatterRoute::ClusterNotFound,
            },
            None => MatterRoute::EndpointNotFound,
        }
    }
}

/// Where an attribute write (`command` false) or a command (`command`
/// true) goes: only a light's On/Off cluster takes them (otherwise the
/// attribute or command is not found); any other endpoint is not found.
pub open spec fn change_route_of(ep: u16, cluster: u32, eps: Seq<u16>, command: bool) -> MatterRoute {
    match light_at(eps, ep) {
        Some(i) => if cluster == ON_OFF_CLUSTER {
            MatterRoute::Light { index: i as usize, cluster: LightCluster::OnOff }
        } else if command {
            MatterRoute::CommandNotFound
        } else {
            MatterRoute::AttributeNotFound
        },
        None => MatterRoute::EndpointNotFound,
    }
}

fn light_cluster(cluster: u32) -> (c: Option<LightCluster>)
    ensures
        c == light_cluster_of(cluster),
{
    if cluster == DESCRIPTOR_CLUSTER {
        Some(LightCluster::Descriptor)
    } else if cluster == GROUPS_CLUSTER {
        Some(LightCluster::Groups)
    } else if cluster == BRIDGED_INFO_CLUSTER {
        Some(LightCluster::BridgedInfo)
    } else if cluster == ON_OFF_CLUSTER {
        Some(LightCluster::OnOff)
    } else {
        None
    }
}

fn light_index(eps: &Vec<u16>, ep: u16) -> (r: Option<usize>)
    ensures
        match r {
            Some(i) => light_at(eps@, ep) == Some(i as int),
            None => light_at(eps@, ep) is None,
        },
{
    let r = find_endpoint(eps, ep);
    proof {
        match r {
            Some(i) => {
                let k = choose|k: int| 0 <= k < eps@.len() && eps@[k] == ep && forall|j: int| 0 <= j < k ==> eps@[j] != ep;
                assert(eps@[i as int] == ep);
                if k < i {
                    assert(eps@[k] != ep);
                } else if k > i {
                    assert(eps@[i as int] != ep);
                }
            },
            None => {},
        }
    }
    r
}

/// Where an attribute read for `ep` and `cluster` goes (see
/// [`read_route_of`]), given the endpoints of the bridged lights.
pub fn read_route(ep: u16, cluster: u32, light_eps: &Vec<u16>) -> (r: MatterRoute)
    ensures
        r == read_route_of(ep, cluster, light_eps@),
{
    if ep == AGGREGATOR_ENDPOINT {
        return MatterRoute::Aggregator;
    }
    match light_index(light_eps, ep) {
        Some(index) => match light_cluster(cluster) {
            Some(c) => MatterRoute::Light { index, cluster: c },
            None => MatterRoute::ClusterNotFound,
        },
        None => MatterRoute::EndpointNotFound,
    }
}

/// Where an attribute write for `ep` and `cluster` goes (see
/// [`change_route_of`]).
pub fn write_route(ep: u16, cluster: u32, light_eps: &Vec<u16>) -> (r: MatterRoute)
    ensures
        r == change_route_of(ep, cluster, light_eps@, false),
{
    match light_index(light_eps, ep) {
        Some(index) => if cluster == ON_OFF_CLUSTER {
            MatterRoute::Light { index, cluster: LightCluster::OnOff }
        } else {
            MatterRoute::AttributeNotFound
        },
        None => MatterRoute::EndpointNotFound,
    }
}

/// Where a command for `ep` and `cluster` goes (see [`change_route_of`]).
pub fn invoke_route(ep: u16, cluster: u32, light_eps: &Vec<u16>) -> (r: MatterRoute)
    ensures
        r == change_route_of(ep, cluster, light_eps@, true),
{
    match light_index(light_eps, ep) {
        Some(index) => if cluster == ON_OFF_CLUSTER {
            MatterRoute::Light { index, cluster: LightCluster::OnOff }
        } else {
            MatterRoute::CommandNotFound
        },
        None => MatterRoute::EndpointNotFound,
    }
}

/// The light clusters whose data version a change notice for `cluster`
/// (none meaning all) bumps, in the order Descriptor, Groups, Bridged Device
/// Basic Information, On/Off.
pub open spec fn bumped_clusters(cluster: Option<u32>) -> Seq<LightCluster> {
    let all = seq![LightCluster::Descriptor, LightCluster::Groups, LightCluster::BridgedInfo, LightCluster::OnOff];
    all.filter(|c: LightCluster| selects_cluster(cluster, light_cluster_id(c)))
}

/// Whether an optional cluster filter selects `id`.
pub open spec fn selects_cluster(filter: Option<u32>, id: u32) -> bool {
    match filter {
        Some(f) => f == id,
        None => true,
    }
}

/// The (light, cluster) pairs whose data version a change notice bumps:
/// for every light whose endpoint the notice selects, in order, the clusters
/// it selects (see [`bumped_clusters`]).
pub open spec fn light_bumps(ep: Option<u16>, cluster: Option<u32>, eps: Seq<u16>) -> Seq<(int, LightCluster)>
    decreases eps.len(),
{
    if eps.len() == 0 {
        Seq::empty()
    } else {
        let n = eps.len() - 1;
        let before = light_bumps(ep, cluster, eps.drop_last());
        if selects(ep, eps[n]) {
            before + bumped_clusters(cluster).map_values(|c: LightCluster| (n, c))
        } else {
            before
        }
    }
}

fn cluster_selected(filter: Option<u32>, id: u32) -> (b: bool)
    ensures
        b == selects_cluster(filter, id),
{
    match filter {
        Some(f) => f == id,
        None => true,
    }
}

/// The data versions a change notice for `ep` and `cluster` (none meaning
/// all) bumps: the aggregator's descriptor when the notice selects endpoint
/// 1 and the Descriptor cluster, and the light clusters of
/// [`light_bumps`].
pub fn dataver_bumps(ep: Option<u16>, cluster: Option<u32>, light_eps: &Vec<u16>) -> (r: (bool, Vec<(usize, LightCluster)>))
    ensures
        r.0 == (selects(ep, AGGREGATOR_ENDPOINT) && selects_cluster(cluster, DESCRIPTOR_CLUSTER)),
        r.1@.map_values(|p: (usize, LightCluster)| (p.0 as int, p.1)) == light_bumps(ep, cluster, light_eps@),
{
    let aggregator = filter_selects(ep, AGGREGATOR_ENDPOINT) && cluster_selected(cluster, DESCRIPTOR_CLUSTER);
    let ghost all = seq![LightCluster::Descriptor, LightCluster::Groups, LightCluster::BridgedInfo, LightCluster::OnOff];
    let mut clusters: Vec<LightCluster> = Vec::new();
    if cluster_selected(cluster, DESCRIPTOR_CLUSTER) {
        clusters.push(LightCluster::Descriptor);
    }
    if cluster_selected(cluster, GROUPS_CLUSTER) {
        clusters.push(LightCluster::Groups);
    }
    if cluster_selected(cluster, BRIDGED_INFO_CLUSTER) {
        clusters.push(LightCluster::BridgedInfo);
    }
    if cluster_selected(cluster, ON_OFF_CLUSTER) {
        clusters.push(LightCluster::OnOff);
    }
    proof {
        reveal_with_fuel(Seq::<LightCluster>::filter, 5);
        assert(all.drop_last().drop_last().drop_last().drop_last() =~= Seq::<LightCluster>::empty());
        assert(all.drop_last().drop_last().drop_last() =~= seq![LightCluster::Descriptor]);
        assert(all.drop_last().drop_last() =~= seq![LightCluster::Descriptor, LightCluster::Groups]);
        assert(all.drop_last() =~= seq![LightCluster::Descriptor, LightCluster::Groups, LightCluster::BridgedInfo]);
        assert(clusters@ =~= bumped_clusters(cluster));
    }
    let mut r: Vec<(usize, LightCluster)> = Vec::new();
    let mut i: usize = 0;
    while i < light_eps.len()
        invariant
            i <= light_eps@.len(),
            clusters@ == bumped_clusters(cluster),
            r@.map_values(|p: (usize, LightCluster)| (p.0 as int, p.1)) == light_bumps(ep, cluster, light_eps@.subrange(0, i as int)),
        decreases light_eps@.len() - i,
    {
        let ghost before = r@;
        let ghost sub = light_eps@.subrange(0, i as int + 1);
        assert(sub.drop_last() =~= light_eps@.subrange(0, i as int));
        if filter_selects(ep, light_eps[i]) {
            let mut k: usize = 0;
            while k < clusters.len()
                invariant
                    k <= clusters@.len(),
                    i < light_eps@.len(),
                    r@.len() == before.len() + k,
                    forall|j: int| 0 <= j < before.len() ==> r@[j] == before[j],
                    forall|j: int| 0 <= j < k ==> r@[before.len() + j] == (i, clusters@[j]),
                decreases clusters@.len() - k,
            {
                r.push((i, clusters[k]));
                k = k + 1;
            }
            assert(r@.map_values(|p: (usize, LightCluster)| (p.0 as int, p.1)) =~= light_bumps(ep, cluster, sub));
        } else {
            assert(r@.map_values(|p: (usize, LightCluster)| (p.0 as int, p.1)) =~= light_bumps(ep, cluster, sub));
        }
        i = i + 1;
    }
    assert(light_eps@.subrange(0, i as int) =~= light_eps@);
    (aggregator, r)
}

/// A light of the hub's index as the Matter bridge exposes it.
#[derive(Debug, Clone)]
pub struct MatterLight {
    /// The hub's id of the light (its key in the index).
    pub device_id: String,
    /// The name shown to Matter controllers.
    pub label: String,
    /// Whether the light is on when the bridge starts.
    pub initial_on: bool,
}

/// A light as plain values: id, label, whether it is on.
pub type MatterLightView = (Seq<char>, Seq<char>, bool);

/// The view of a [`MatterLight`].
pub open spec fn matter_light_view(l: MatterLight) -> MatterLightView {
    (l.device_id@, l.label@, l.initial_on)
}

/// The lights among index entries (key and device), in the order listed:
/// each keeps its key as id, its description (the key when it has none) as
/// label, and is on when the hub reports it on.
pub open spec fn index_lights(entries: Seq<(String, HomeDeviceData)>) -> Seq<MatterLightView>
    decreases entries.len(),
{
    if entries.len() == 0 {
        Seq::empty()
    } else {
        let before = index_lights(entries.drop_last());
        let (key, device) = entries.last();
        match device {
            HomeDeviceData::Light(l) => before.push((
                key@,
                match l.description { Some(d) => d@, None => key@ },
                l.status == Some(DeviceStatus::On),
            )),
            _ => before,
        }
    }
}

/// The ids of lights.
pub open spec fn light_ids(lights: Seq<MatterLightView>) -> Seq<Seq<char>> {
    lights.map_values(|l: MatterLightView| l.0)
}

/// The lights the Matter bridge exposes, from the hub's index: the lights of
/// the index (see [`index_lights`]) in ascending order of their ids; an
/// index without lights is refused.
pub fn matter_lights(entries: &Vec<(String, HomeDeviceData)>) -> (r: Result<Vec<MatterLight>, String>)
    ensures
        index_lights(entries@).len() == 0 <==> r is Err,
        r matches Err(msg) ==> msg@ == "No lights found in Comelit index"@,
        r matches Ok(v) ==> exists|order: Seq<usize>| #[trigger] sorted_by_id(light_ids(index_lights(entries@)), order)
            && v@.len() == order.len()
            && forall|k: int| 0 <= k < v@.len() ==> matter_light_view(#[trigger] v@[k]) == index_lights(entries@)[order[k] as int],
{
    let mut lights: Vec<MatterLight> = Vec::new();
    let mut i: usize = 0;
    while i < entries.len()
        invariant
            i <= entries@.len(),
            lights@.map_values(|l: MatterLight| matter_light_view(l)) == index_lights(entries@.subrange(0, i as int)),
        decreases entries@.len() - i,
    {
        let ghost sub = entries@.subrange(0, i as int + 1);
        assert(sub.drop_last() =~= entries@.subrange(0, i as int));
        let (key, device) = &entries[i];
        match device {
            HomeDeviceData::Light(l) => {
                let label = match &l.description {
                    Some(d) => d.clone(),
                    None => key.clone(),
                };
                let on = match l.status {
                    Some(DeviceStatus::On) => true,
                    _ => false,
                };
                lights.push(MatterLight { device_id: key.clone(), label, initial_on: on });
            },
            _ => {},
        }
        assert(lights@.map_values(|l: MatterLight| matter_light_view(l)) =~= index_lights(sub));
        i = i + 1;
    }
    assert(entries@.subrange(0, i as int) =~= entries@);
    let ghost found = index_lights(entries@);
    if lights.len() == 0 {
        return Err(String::from_str("No lights found in Comelit index"));
    }
    let mut ids: Vec<String> = Vec::new();
    let mut k: usize = 0;
    while k < lights.len()
        invariant
            k <= lights@.len(),
            lights@.map_values(|l: MatterLight| matter_light_view(l)) == found,
            ids@.len() == k,
            forall|j: int| 0 <= j < k ==> ids@[j]@ == lights@[j].device_id@,
        decreases lights@.len() - k,
    {
        ids.push(lights[k].device_id.clone());
        k = k + 1;
    }
    assert(ids@.map_values(|s: String| s@) =~= light_ids(found)) by {
        assert forall|j: int| 0 <= j < ids@.len() implies ids@.map_values(|s: String| s@)[j] == light_ids(found)[j] by {
            assert(found[j] == matter_light_view(lights@[j]));
        }
    }
    let order = sort_by_id(&ids);
    let mut r: Vec<MatterLight> = Vec::new();
    let mut k: usize = 0;
    while k < order.len()
        invariant
            k <= order@.len(),
            lights@.map_values(|l: MatterLight| matter_light_view(l)) == found,
            sorted_by_id(light_ids(found), order@),
            r@.len() == k,
            forall|j: int| 0 <= j < k ==> matter_light_view(#[trigger] r@[j]) == found[order@[j] as int],
        decreases order@.len() - k,
    {
        let idx = order[k];
        let l = &lights[idx];
        let copy = MatterLight { device_id: l.device_id.clone(), label: l.label.clone(), initial_on: l.initial_on };
        assert(matter_light_view(copy) == found[idx as int]);
        r.push(copy);
        k = k + 1;
    }
    Ok(r)
}

/// Converting a hub position to Matter's lift position and back gives the
/// position again, for every position from fully closed to fully open; a
/// Matter position in whole percents survives the opposite round trip.
pub proof fn lemma_lift_round_trip(comelit: u8, matter_pct: u16)
    ensures
        comelit <= FULLY_OPENED ==> comelit_position_of((matter_percent_of(comelit) * 100) as u16) == comelit,
        matter_pct <= 100 ==> matter_percent_of(comelit_position_of((matter_pct * 100) as u16) as u8) == matter_pct,
{
}

/// Every heating/cooling state except `Auto` survives being shown to Matter
/// and written back; `Auto` comes back as `Heat`, and Matter is never shown
/// an automatic mode.
pub proof fn lemma_system_mode_round_trip(s: TargetHeatingCoolingState)
    ensures
        s != TargetHeatingCoolingState::Auto ==> heating_cooling_of_mode(system_mode_of(s)) == s,
        s == TargetHeatingCoolingState::Auto ==> heating_cooling_of_mode(system_mode_of(s)) == TargetHeatingCoolingState::Heat,
        system_mode_of(s) != SystemMode::Auto,
{
}

/// The operational status of a movement reads back as that movement through
/// its lift field, and the global field always equals the lift field.
pub proof fn lemma_operational_status_fields(p: PositionState)
    ensures
        operational_status_bits(p) / 4 == operational_status_bits(p) % 4,
        operational_status_bits(p) < 16,
        (operational_status_bits(p) / 4 == 1) == (p == PositionState::MovingUp),
        (operational_status_bits(p) / 4 == 2) == (p == PositionState::MovingDown),
        (operational_status_bits(p) == 0) == (p == PositionState::Stopped),
{
}

} // verus!

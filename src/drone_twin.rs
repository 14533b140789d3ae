use crate::ids::ids_view;
use crate::snapshot::Snapshot;
use crate::twin::{tag_with_id, tags_with_id, Twin};
use vstd::prelude::*;

verus! {

/// How long after being powered a drone counts as enabled, in milliseconds.
pub const ENABLED_WINDOW_MS: u64 = 15000;

/// The battery level of a freshly defined drone, in percent.
pub const FULL_BATTERY: u8 = 100;

pub struct UndefinedState {
    pub id: String,
}

pub struct ReadyState {
    pub id: String,
    pub ip: String,
    pub ssid: String,
    pub battery: u8,
    /// When the launchpad last powered the drone, in milliseconds.
    pub enabled_at: Option<u64>,
    pub connected: bool,
}

pub struct LaunchedState {
    pub id: String,
    pub ip: String,
    pub ssid: String,
    pub mission_id: String,
    pub at_waypoint_id: u32,
    pub target_waypoint_id: Option<u32>,
    pub completed: bool,
    pub battery: u8,
}

pub struct UsedState {
    pub id: String,
    pub ip: String,
    pub ssid: String,
    pub last_mission_id: String,
    pub battery: u8,
}

/// The projected state of a drone.
pub enum DroneTwinState {
    Undefined(UndefinedState),
    Ready(ReadyState),
    Launched(LaunchedState),
    Used(UsedState),
}

pub struct ReadyView {
    pub id: Seq<char>,
    pub ip: Seq<char>,
    pub ssid: Seq<char>,
    pub battery: u8,
    pub enabled_at: Option<u64>,
    pub connected: bool,
}

pub struct LaunchedView {
    pub id: Seq<char>,
    pub ip: Seq<char>,
    pub ssid: Seq<char>,
    pub mission_id: Seq<char>,
    pub at_waypoint_id: u32,
    pub target_waypoint_id: Option<u32>,
    pub completed: bool,
    pub battery: u8,
}

pub struct UsedView {
    pub id: Seq<char>,
    pub ip: Seq<char>,
    pub ssid: Seq<char>,
    pub last_mission_id: Seq<char>,
    pub battery: u8,
}

/// What a drone's projection holds.
pub enum DroneView {
    Undefined(Seq<char>),
    Ready(ReadyView),
    Launched(LaunchedView),
    Used(UsedView),
}

impl View for ReadyState {
    type V = ReadyView;

    open spec fn view(&self) -> ReadyView {
        ReadyView {
            id: self.id@,
            ip: self.ip@,
            ssid: self.ssid@,
            battery: self.battery,
            enabled_at: self.enabled_at,
            connected: self.connected,
        }
    }
}

impl View for LaunchedState {
    type V = LaunchedView;

    open spec fn view(&self) -> LaunchedView {
        LaunchedView {
            id: self.id@,
            ip: self.ip@,
            ssid: self.ssid@,
            mission_id: self.mission_id@,
            at_waypoint_id: self.at_waypoint_id,
            target_waypoint_id: self.target_waypoint_id,
            completed: self.completed,
            battery: self.battery,
        }
    }
}

impl View for UsedState {
    type V = UsedView;

    open spec fn view(&self) -> UsedView {
        UsedView {
            id: self.id@,
            ip: self.ip@,
            ssid: self.ssid@,
            last_mission_id: self.last_mission_id@,
            battery: self.battery,
        }
    }
}

impl View for DroneTwinState {
    type V = DroneView;

    open spec fn view(&self) -> DroneView {
        match self {
            DroneTwinState::Undefined(s) => DroneView::Undefined(s.id@),
            DroneTwinState::Ready(s) => DroneView::Ready(s@),
            DroneTwinState::Launched(s) => DroneView::Launched(s@),
            DroneTwinState::Used(s) => DroneView::Used(s@),
        }
    }
}

/// Whether a drone powered at `enabled_at` still counts as enabled at `now`.
pub open spec fn enabled_at_time(enabled_at: Option<u64>, now: u64) -> bool {
    match enabled_at {
        Some(t) => t <= now && now - t < ENABLED_WINDOW_MS,
        None => false,
    }
}

impl ReadyState {
    /// Whether the drone was powered within the last fifteen seconds before `now`
    /// (milliseconds on the clock that `enabled_at` uses).
    pub fn is_enabled(&self, now: u64) -> (r: bool)
        ensures
            r == enabled_at_time(self.enabled_at, now),
    {
        match self.enabled_at {
            Some(t) => t <= now && now - t < ENABLED_WINDOW_MS,
            None => false,
        }
    }

    fn copy(&self) -> (r: Self)
        ensures
            r@ == self@,
    {
        ReadyState {
            id: self.id.clone(),
            ip: self.ip.clone(),
            ssid: self.ssid.clone(),
            battery: self.battery,
            enabled_at: self.enabled_at,
            connected: self.connected,
        }
    }
}

impl LaunchedState {
    fn copy(&self) -> (r: Self)
        ensures
            r@ == self@,
    {
        LaunchedState {
            id: self.id.clone(),
            ip: self.ip.clone(),
            ssid: self.ssid.clone(),
            mission_id: self.mission_id.clone(),
            at_waypoint_id: self.at_waypoint_id,
            target_waypoint_id: self.target_waypoint_id,
            completed: self.completed,
            battery: self.battery,
        }
    }
}

impl UsedState {
    fn copy(&self) -> (r: Self)
        ensures
            r@ == self@,
    {
        UsedState {
            id: self.id.clone(),
            ip: self.ip.clone(),
            ssid: self.ssid.clone(),
            last_mission_id: self.last_mission_id.clone(),
            battery: self.battery,
        }
    }
}

/// The id that a drone state carries, empty while the drone is undefined and
/// nothing named it.
pub open spec fn drone_id_of(s: DroneView) -> Seq<char> {
    match s {
        DroneView::Undefined(id) => id,
        DroneView::Ready(r) => r.id,
        DroneView::Launched(l) => l.id,
        DroneView::Used(u) => u.id,
    }
}

/// The battery level that a drone state carries, if it carries one.
pub open spec fn battery_of(s: DroneView) -> Option<u8> {
    match s {
        DroneView::Undefined(_) => None,
        DroneView::Ready(r) => Some(r.battery),
        DroneView::Launched(l) => Some(l.battery),
        DroneView::Used(u) => Some(u.battery),
    }
}

/// A drone state whose battery level is a percentage.
pub open spec fn drone_wf(s: DroneView) -> bool {
    match battery_of(s) {
        Some(b) => b <= FULL_BATTERY,
        None => true,
    }
}

/// The state of a drone that no event has touched yet.
pub open spec fn drone_initial() -> DroneView {
    DroneView::Undefined(Seq::empty())
}

impl DroneTwinState {
    pub fn default() -> (r: Self)
        ensures
            r@ == drone_initial(),
    {
        DroneTwinState::Undefined(UndefinedState { id: String::new() })
    }

    pub fn id(&self) -> (r: String)
        ensures
            r@ == drone_id_of(self@),
    {
        match self {
            DroneTwinState::Undefined(s) => s.id.clone(),
            DroneTwinState::Ready(s) => s.id.clone(),
            DroneTwinState::Launched(s) => s.id.clone(),
            DroneTwinState::Used(s) => s.id.clone(),
        }
    }
}

impl Snapshot for DroneTwinState {
    fn snapshot(&self) -> (r: Self) {
        match self {
            DroneTwinState::Undefined(s) => DroneTwinState::Undefined(
                UndefinedState { id: s.id.clone() },
            ),
            DroneTwinState::Ready(s) => DroneTwinState::Ready(s.copy()),
            DroneTwinState::Launched(s) => DroneTwinState::Launched(s.copy()),
            DroneTwinState::Used(s) => DroneTwinState::Used(s.copy()),
        }
    }

    fn same_as(&self, other: &Self) -> (r: bool) {
        match (self, other) {
            (DroneTwinState::Undefined(a), DroneTwinState::Undefined(b)) => a.id == b.id,
            (DroneTwinState::Ready(a), DroneTwinState::Ready(b)) => {
                a.id == b.id && a.ip == b.ip && a.ssid == b.ssid && a.battery == b.battery
                    && a.enabled_at == b.enabled_at && a.connected == b.connected
            },
            (DroneTwinState::Launched(a), DroneTwinState::Launched(b)) => {
                a.id == b.id && a.ip == b.ip && a.ssid == b.ssid && a.mission_id == b.mission_id
                    && a.at_waypoint_id == b.at_waypoint_id && a.target_waypoint_id
                    == b.target_waypoint_id && a.completed == b.completed && a.battery
                    == b.battery
            },
            (DroneTwinState::Used(a), DroneTwinState::Used(b)) => {
                a.id == b.id && a.ip == b.ip && a.ssid == b.ssid && a.last_mission_id
                    == b.last_mission_id && a.battery == b.battery
            },
            _ => false,
        }
    }
}

/// Where a drone touched down.
pub struct Position {
    pub x: i32,
    pub y: i32,
    pub z: i32,
}

pub struct DroneDefinedEvent {
    pub id: String,
    pub ssid: String,
    pub ip: String,
}

pub struct DroneReadyEvent {
    pub id: String,
}

pub struct DroneConnectedEvent {
    pub id: String,
}

pub struct DroneStatsUpdatedEvent {
    pub id: String,
    pub battery: u8,
}

pub struct DroneLaunchedEvent {
    pub id: String,
    pub mission_id: String,
}

pub struct DroneStartedToNextWaypointEvent {
    pub id: String,
    pub mission_id: String,
    pub waypoint_id: i32,
}

pub struct DroneArrivedAtWaypointEvent {
    pub id: String,
    pub mission_id: String,
    pub waypoint_id: i32,
}

pub struct DroneMissionCompletedEvent {
    pub id: String,
    pub mission_id: String,
}

pub struct DroneLandedEvent {
    pub id: String,
    pub at: Position,
}

pub struct DroneDisconnectedEvent {
    pub id: String,
}

/// The events that a drone's projection consumes.
pub enum DroneEvent {
    DroneDefined(DroneDefinedEvent),
    DroneReady(DroneReadyEvent),
    DroneConnected(DroneConnectedEvent),
    DroneStatsUpdated(DroneStatsUpdatedEvent),
    DroneLaunched(DroneLaunchedEvent),
    DroneStartedToNextWaypoint(DroneStartedToNextWaypointEvent),
    DroneArrivedAtWaypoint(DroneArrivedAtWaypointEvent),
    DroneMissionCompleted(DroneMissionCompletedEvent),
    DroneLanded(DroneLandedEvent),
    DroneDisconnected(DroneDisconnectedEvent),
}

/// A drone in flight on `mission_id`, heading for `target` from `at`.
pub open spec fn launched_view(
    id: Seq<char>,
    ip: Seq<char>,
    ssid: Seq<char>,
    battery: u8,
    mission_id: Seq<char>,
    at: u32,
    target: Option<u32>,
) -> LaunchedView {
    LaunchedView {
        id,
        ip,
        ssid,
        mission_id,
        at_waypoint_id: at,
        target_waypoint_id: target,
        completed: false,
        battery,
    }
}

/// The waypoint a drone leaves from when it starts towards `waypoint_id` with no
/// target recorded: the one before, or the first.
pub open spec fn waypoint_before(waypoint_id: i32) -> u32 {
    if waypoint_id <= 0 {
        0
    } else {
        (waypoint_id - 1) as u32
    }
}

/// The effect of one event on a drone. Events that do not apply to the current
/// variant, and those whose values lie outside the state's ranges (a battery
/// above a hundred percent, a negative waypoint), leave the state as it is.
pub open spec fn drone_step(s: DroneView, e: DroneEvent) -> DroneView {
    match e {
        DroneEvent::DroneDefined(ev) => DroneView::Ready(
            ReadyView {
                id: ev.id@,
                ip: ev.ip@,
                ssid: ev.ssid@,
                battery: FULL_BATTERY,
                enabled_at: None,
                connected: false,
            },
        ),
        DroneEvent::DroneConnected(_) => match s {
            DroneView::Ready(r) => DroneView::Ready(ReadyView { connected: true, ..r }),
            DroneView::Used(u) => DroneView::Ready(
                ReadyView {
                    id: u.id,
                    ip: u.ip,
                    ssid: u.ssid,
                    battery: u.battery,
                    enabled_at: None,
                    connected: true,
                },
            ),
            _ => s,
        },
        DroneEvent::DroneStatsUpdated(ev) => if ev.battery > FULL_BATTERY {
            s
        } else {
            match s {
                DroneView::Ready(r) => DroneView::Ready(ReadyView { battery: ev.battery, ..r }),
                DroneView::Launched(l) => DroneView::Launched(
                    LaunchedView { battery: ev.battery, ..l },
                ),
                DroneView::Used(u) => DroneView::Used(UsedView { battery: ev.battery, ..u }),
                _ => s,
            }
        },
        DroneEvent::DroneLaunched(ev) => match s {
            DroneView::Ready(r) => DroneView::Launched(
                launched_view(ev.id@, r.ip, r.ssid, r.battery, ev.mission_id@, 0, None),
            ),
            DroneView::Used(u) => DroneView::Launched(
                launched_view(ev.id@, u.ip, u.ssid, u.battery, ev.mission_id@, 0, None),
            ),
            _ => s,
        },
        DroneEvent::DroneStartedToNextWaypoint(ev) => if ev.waypoint_id < 0 {
            s
        } else {
            let target = Some(ev.waypoint_id as u32);
            match s {
                DroneView::Ready(r) => DroneView::Launched(
                    launched_view(
                        ev.id@,
                        r.ip,
                        r.ssid,
                        r.battery,
                        ev.mission_id@,
                        waypoint_before(ev.waypoint_id),
                        target,
                    ),
                ),
                DroneView::Launched(l) => DroneView::Launched(
                    launched_view(
                        ev.id@,
                        l.ip,
                        l.ssid,
                        l.battery,
                        ev.mission_id@,
                        match l.target_waypoint_id {
                            Some(t) => t,
                            None => waypoint_before(ev.waypoint_id),
                        },
                        target,
                    ),
                ),
                DroneView::Used(u) => DroneView::Launched(
                    launched_view(
                        ev.id@,
                        u.ip,
                        u.ssid,
                        u.battery,
                        ev.mission_id@,
                        waypoint_before(ev.waypoint_id),
                        target,
                    ),
                ),
                _ => s,
            }
        },
        DroneEvent::DroneArrivedAtWaypoint(ev) => match s {
            DroneView::Launched(l) => if ev.waypoint_id < 0 {
                s
            } else {
                DroneView::Launched(
                    LaunchedView {
                        mission_id: ev.mission_id@,
                        at_waypoint_id: ev.waypoint_id as u32,
                        target_waypoint_id: None,
                        completed: false,
                        ..l
                    },
                )
            },
            _ => s,
        },
        DroneEvent::DroneMissionCompleted(_) => match s {
            DroneView::Launched(l) => DroneView::Launched(
                LaunchedView { completed: true, target_waypoint_id: None, ..l },
            ),
            _ => s,
        },
        DroneEvent::DroneLanded(_) => match s {
            DroneView::Launched(l) => DroneView::Used(
                UsedView {
                    id: l.id,
                    ip: l.ip,
                    ssid: l.ssid,
                    last_mission_id: l.mission_id,
                    battery: l.battery,
                },
            ),
            _ => s,
        },
        DroneEvent::DroneReady(_) => s,
        DroneEvent::DroneDisconnected(_) => s,
    }
}

/// Every event keeps a drone's battery level a percentage.
pub proof fn lemma_drone_step_wf(s: DroneView, e: DroneEvent)
    requires
        drone_wf(s),
    ensures
        drone_wf(drone_step(s, e)),
{
}

/// The twin of one drone, keyed by its id.
pub struct DroneTwin {
    pub id: String,
}

impl DroneTwin {
    pub fn new(id: String) -> (r: Self)
        ensures
            r.id@ == id@,
    {
        DroneTwin { id }
    }

    /// A ready signal changes no projected state.
    pub fn handle_ready_event(state: DroneTwinState, e: &DroneReadyEvent) -> (r: DroneTwinState)
        ensures
            r@ == drone_step(state@, DroneEvent::DroneReady(*e)),
    {
        state
    }

    pub fn handle_connected_event(state: DroneTwinState, e: &DroneConnectedEvent) -> (r:
        DroneTwinState)
        ensures
            r@ == drone_step(state@, DroneEvent::DroneConnected(*e)),
    {
        match state {
            DroneTwinState::Ready(mut s) => {
                s.connected = true;
                DroneTwinState::Ready(s)
            },
            DroneTwinState::Used(s) => DroneTwinState::Ready(
                ReadyState {
                    id: s.id,
                    ip: s.ip,
                    ssid: s.ssid,
                    battery: s.battery,
                    enabled_at: None,
                    connected: true,
                },
            ),
            _ => state,
        }
    }

    pub fn handle_states_updated_event(state: DroneTwinState, e: &DroneStatsUpdatedEvent) -> (r:
        DroneTwinState)
        ensures
            r@ == drone_step(state@, DroneEvent::DroneStatsUpdated(*e)),
    {
        if e.battery > FULL_BATTERY {
            return state;
        }
        match state {
            DroneTwinState::Ready(mut s) => {
                s.battery = e.battery;
                DroneTwinState::Ready(s)
            },
            DroneTwinState::Launched(mut s) => {
                s.battery = e.battery;
                DroneTwinState::Launched(s)
            },
            DroneTwinState::Used(mut s) => {
                s.battery = e.battery;
                DroneTwinState::Used(s)
            },
            _ => state,
        }
    }

    pub fn handle_launched_event(state: DroneTwinState, e: &DroneLaunchedEvent) -> (r:
        DroneTwinState)
        ensures
            r@ == drone_step(state@, DroneEvent::DroneLaunched(*e)),
    {
        match state {
            DroneTwinState::Ready(s) => DroneTwinState::Launched(
                LaunchedState {
                    id: e.id.clone(),
                    ip: s.ip,
                    ssid: s.ssid,
                    mission_id: e.mission_id.clone(),
                    at_waypoint_id: 0,
                    target_waypoint_id: None,
                    completed: false,
                    battery: s.battery,
                },
            ),
            DroneTwinState::Used(s) => DroneTwinState::Launched(
                LaunchedState {
                    id: e.id.clone(),
                    ip: s.ip,
                    ssid: s.ssid,
                    mission_id: e.mission_id.clone(),
                    at_waypoint_id: 0,
                    target_waypoint_id: None,
                    completed: false,
                    battery: s.battery,
                },
            ),
            _ => state,
        }
    }

    pub fn handle_started_to_next_waypoint(
        state: DroneTwinState,
        e: &DroneStartedToNextWaypointEvent,
    ) -> (r: DroneTwinState)
        ensures
            r@ == drone_step(state@, DroneEvent::DroneStartedToNextWaypoint(*e)),
    {
        if e.waypoint_id < 0 {
            return state;
        }
        let target = e.waypoint_id as u32;
        let before: u32 = if e.waypoint_id == 0 {
            0
        } else {
            (e.waypoint_id - 1) as u32
        };
        match state {
            DroneTwinState::Ready(s) => DroneTwinState::Launched(
                LaunchedState {
                    id: e.id.clone(),
                    ip: s.ip,
                    ssid: s.ssid,
                    mission_id: e.mission_id.clone(),
                    at_waypoint_id: before,
                    target_waypoint_id: Some(target),
                    completed: false,
                    battery: s.battery,
                },
            ),
            DroneTwinState::Launched(s) => DroneTwinState::Launched(
                LaunchedState {
                    id: e.id.clone(),
                    ip: s.ip,
                    ssid: s.ssid,
                    mission_id: e.mission_id.clone(),
                    at_waypoint_id: match s.target_waypoint_id {
                        Some(t) => t,
                        None => before,
                    },
                    target_waypoint_id: Some(target),
                    completed: false,
                    battery: s.battery,
                },
            ),
            DroneTwinState::Used(s) => DroneTwinState::Launched(
                LaunchedState {
                    id: e.id.clone(),
                    ip: s.ip,
                    ssid: s.ssid,
                    mission_id: e.mission_id.clone(),
                    at_waypoint_id: before,
                    target_waypoint_id: Some(target),
                    completed: false,
                    battery: s.battery,
                },
            ),
            _ => state,
        }
    }

    pub fn handle_arrived_at_waypoint(state: DroneTwinState, e: &DroneArrivedAtWaypointEvent) -> (r:
        DroneTwinState)
        ensures
            r@ == drone_step(state@, DroneEvent::DroneArrivedAtWaypoint(*e)),
    {
        match state {
            DroneTwinState::Launched(mut s) => {
                if e.waypoint_id >= 0 {
                    s.mission_id = e.mission_id.clone();
                    s.at_waypoint_id = e.waypoint_id as u32;
                    s.target_waypoint_id = None;
                    s.completed = false;
                }
                DroneTwinState::Launched(s)
            },
            _ => state,
        }
    }

    pub fn handle_mission_completed(state: DroneTwinState, e: &DroneMissionCompletedEvent) -> (r:
        DroneTwinState)
        ensures
            r@ == drone_step(state@, DroneEvent::DroneMissionCompleted(*e)),
    {
        match state {
            DroneTwinState::Launched(mut s) => {
                s.completed = true;
                s.target_waypoint_id = None;
                DroneTwinState::Launched(s)
            },
            _ => state,
        }
    }

    pub fn handle_landed(state: DroneTwinState, e: &DroneLandedEvent) -> (r: DroneTwinState)
        ensures
            r@ == drone_step(state@, DroneEvent::DroneLanded(*e)),
    {
        match state {
            DroneTwinState::Launched(s) => DroneTwinState::Used(
                UsedState {
                    id: s.id,
                    ip: s.ip,
                    ssid: s.ssid,
                    last_mission_id: s.mission_id,
                    battery: s.battery,
                },
            ),
            _ => state,
        }
    }
}

impl Twin for DroneTwin {
    type State = DroneTwinState;

    type Event = DroneEvent;

    open spec fn initial_spec() -> DroneView {
        drone_initial()
    }

    open spec fn reduce_spec(state: DroneView, event: DroneEvent) -> DroneView {
        drone_step(state, event)
    }

    open spec fn name_spec(&self) -> Seq<char> {
        "drone"@
    }

    open spec fn id_spec(&self) -> Seq<char> {
        self.id@
    }

    open spec fn query_spec(&self) -> Seq<char> {
        "FROM 'drone:"@ + self.id@ + "'"@
    }

    fn name(&self) -> (r: String) {
        "drone".to_string()
    }

    fn id(&self) -> (r: String) {
        self.id.clone()
    }

    fn query(&self) -> (r: String) {
        let mut q = "FROM 'drone:".to_string();
        q.append(self.id.as_str());
        q.append("'");
        q
    }

    fn initial() -> (r: DroneTwinState) {
        DroneTwinState::default()
    }

    fn reducer(state: DroneTwinState, event: &DroneEvent) -> (r: DroneTwinState) {
        match event {
            DroneEvent::DroneDefined(e) => DroneTwinState::Ready(
                ReadyState {
                    id: e.id.clone(),
                    ip: e.ip.clone(),
                    ssid: e.ssid.clone(),
                    battery: FULL_BATTERY,
                    enabled_at: None,
                    connected: false,
                },
            ),
            DroneEvent::DroneReady(e) => DroneTwin::handle_ready_event(state, e),
            DroneEvent::DroneConnected(e) => DroneTwin::handle_connected_event(state, e),
            DroneEvent::DroneStatsUpdated(e) => DroneTwin::handle_states_updated_event(state, e),
            DroneEvent::DroneLaunched(e) => DroneTwin::handle_launched_event(state, e),
            DroneEvent::DroneStartedToNextWaypoint(e) => {
                DroneTwin::handle_started_to_next_waypoint(state, e)
            },
            DroneEvent::DroneArrivedAtWaypoint(e) => DroneTwin::handle_arrived_at_waypoint(
                state,
                e,
            ),
            DroneEvent::DroneMissionCompleted(e) => DroneTwin::handle_mission_completed(state, e),
            DroneEvent::DroneLanded(e) => DroneTwin::handle_landed(state, e),
            DroneEvent::DroneDisconnected(_) => state,
        }
    }
}

/// The tags of every event about the drone `id`.
pub fn tag_drone_id(id: &str) -> (r: Vec<String>)
    ensures
        ids_view(r) == tags_with_id("drone"@, id@),
{
    tag_with_id("drone", id)
}

/// The tags of the event that a drone set off on a mission.
pub fn tag_drone_mission_started(id: &str) -> (r: Vec<String>)
    ensures
        ids_view(r) == tags_with_id("drone"@, id@).push("drone.mission.started"@),
{
    let mut r = tag_drone_id(id);
    let ghost before = ids_view(r);
    let t = "drone.mission.started".to_string();
    r.push(t);
    proof {
        assert(ids_view(r) =~= before.push(t@));
    }
    r
}

/// The tags of the event that a drone completed its mission.
pub fn tag_drone_mission_completed(id: &str) -> (r: Vec<String>)
    ensures
        ids_view(r) == tags_with_id("drone"@, id@).push("drone.mission.completed"@),
{
    let mut r = tag_drone_id(id);
    let ghost before = ids_view(r);
    let t = "drone.mission.completed".to_string();
    r.push(t);
    proof {
        assert(ids_view(r) =~= before.push(t@));
    }
    r
}

} // verus!

use crate::drone_twin::{
    battery_of, enabled_at_time, DroneTwin, DroneTwinState, DroneView, FULL_BATTERY,
};
use crate::ids::{ids_view, opt_view};
use crate::launchpad_twin::{LaunchpadTwinState, LaunchpadView};
use crate::mission_twin::{
    MissionRegistryState, MissionTwin, MissionTwinState, MissionView, Waypoint,
};
use crate::snapshot::Snapshot;
use crate::waypoint::{waypoint_commands, waypoint_commands_spec, DroneCommand};
use vstd::prelude::*;

verus! {

/// The port of the drone's command channel when its address names none.
pub const DRONE_COMMAND_PORT: &'static str = ":8889";

/// The least difference between the live battery level and the projected one
/// that is worth an update, in percent.
pub const BATTERY_REPORT_THRESHOLD: i32 = 5;

/// What the controller knows when it decides.
pub struct AppState {
    pub launchpad: LaunchpadTwinState,
    pub drone: Option<DroneTwinState>,
    pub mission: Option<MissionTwinState>,
}

pub struct AppView {
    pub launchpad: LaunchpadView,
    pub drone: Option<DroneView>,
    pub mission: Option<MissionView>,
}

pub open spec fn opt_drone_view(o: Option<DroneTwinState>) -> Option<DroneView> {
    match o {
        Some(s) => Some(s@),
        None => None,
    }
}

pub open spec fn opt_mission_view(o: Option<MissionTwinState>) -> Option<MissionView> {
    match o {
        Some(s) => Some(s@),
        None => None,
    }
}

impl View for AppState {
    type V = AppView;

    open spec fn view(&self) -> AppView {
        AppView {
            launchpad: self.launchpad@,
            drone: opt_drone_view(self.drone),
            mission: opt_mission_view(self.mission),
        }
    }
}

/// What the controller does next.
pub enum ControllerAction {
    /// Nothing to do.
    Idle,
    /// Power the drone, then report it activated on this launchpad.
    EnableDrone { drone_id: String, launchpad_id: String },
    /// Open the command channel at `address`, then report the drone connected.
    Connect { drone_id: String, address: String },
    /// Take off, then report the drone launched on the mission.
    TakeOff { drone_id: String, mission_id: String },
    /// Carry out the waypoint at `index` of the mission.
    ExecWaypoint { drone_id: String, mission_id: String, index: u64 },
    /// Land, then report the landing and the completed mission.
    Land { drone_id: String, mission_id: String },
    /// The drone is on its way to a waypoint; wait for it.
    AwaitArrival,
    /// Make the first queued mission the launchpad's current one.
    ActivateMission { launchpad_id: String, mission_id: String },
}

pub enum ActionView {
    Idle,
    EnableDrone { drone_id: Seq<char>, launchpad_id: Seq<char> },
    Connect { drone_id: Seq<char>, address: Seq<char> },
    TakeOff { drone_id: Seq<char>, mission_id: Seq<char> },
    ExecWaypoint { drone_id: Seq<char>, mission_id: Seq<char>, index: u64 },
    Land { drone_id: Seq<char>, mission_id: Seq<char> },
    AwaitArrival,
    ActivateMission { launchpad_id: Seq<char>, mission_id: Seq<char> },
}

impl View for ControllerAction {
    type V = ActionView;

    open spec fn view(&self) -> ActionView {
        match self {
            ControllerAction::Idle => ActionView::Idle,
            ControllerAction::EnableDrone { drone_id, launchpad_id } => ActionView::EnableDrone {
                drone_id: drone_id@,
                launchpad_id: launchpad_id@,
            },
            ControllerAction::Connect { drone_id, address } => ActionView::Connect {
                drone_id: drone_id@,
                address: address@,
            },
            ControllerAction::TakeOff { drone_id, mission_id } => ActionView::TakeOff {
                drone_id: drone_id@,
                mission_id: mission_id@,
            },
            ControllerAction::ExecWaypoint { drone_id, mission_id, index } => ActionView::ExecWaypoint {
                drone_id: drone_id@,
                mission_id: mission_id@,
                index: *index,
            },
            ControllerAction::Land { drone_id, mission_id } => ActionView::Land {
                drone_id: drone_id@,
                mission_id: mission_id@,
            },
            ControllerAction::AwaitArrival => ActionView::AwaitArrival,
            ControllerAction::ActivateMission { launchpad_id, mission_id } => ActionView::ActivateMission {
                launchpad_id: launchpad_id@,
                mission_id: mission_id@,
            },
        }
    }
}

/// The address of a drone's command channel: its ip, with the command port
/// added when the ip names no port.
pub open spec fn drone_address_spec(ip: Seq<char>) -> Seq<char> {
    if ip.contains(':') {
        ip
    } else {
        ip + DRONE_COMMAND_PORT@
    }
}

/// The address of a drone's command channel; see [`drone_address_spec`].
pub fn drone_address(ip: &str) -> (r: String)
    ensures
        r@ == drone_address_spec(ip@),
{
    let n = ip.unicode_len();
    let mut i: usize = 0;
    while i < n
        invariant
            n == ip@.len(),
            0 <= i <= n,
            forall|j: int| 0 <= j < i ==> ip@[j] != ':',
        decreases n - i,
    {
        if ip.get_char(i) == ':' {
            return ip.to_string();
        }
        i = i + 1;
    }
    let mut r = ip.to_string();
    r.append(DRONE_COMMAND_PORT);
    r
}

/// What the controller does with `app` at time `now` on the launchpad `name`.
/// With both a drone and a mission at hand the drone's state decides; without
/// them the first queued mission, if any, is activated.
pub open spec fn decision(app: AppView, name: Seq<char>, now: u64) -> ActionView {
    match (app.drone, app.mission) {
        (Some(drone), Some(mission)) => match drone {
            DroneView::Undefined(_) => ActionView::Idle,
            DroneView::Ready(r) => if !enabled_at_time(r.enabled_at, now) {
                ActionView::EnableDrone { drone_id: r.id, launchpad_id: name }
            } else if !r.connected {
                ActionView::Connect { drone_id: r.id, address: drone_address_spec(r.ip) }
            } else {
                ActionView::TakeOff { drone_id: r.id, mission_id: mission.id }
            },
            DroneView::Launched(l) => if l.completed {
                ActionView::Land { drone_id: l.id, mission_id: mission.id }
            } else {
                match l.target_waypoint_id {
                    None => ActionView::ExecWaypoint {
                        drone_id: l.id,
                        mission_id: mission.id,
                        index: (l.at_waypoint_id + 1) as u64,
                    },
                    Some(_) => ActionView::AwaitArrival,
                }
            },
            DroneView::Used(_) => ActionView::Idle,
        },
        _ => if app.launchpad.mission_queue.len() > 0 {
            ActionView::ActivateMission {
                launchpad_id: name,
                mission_id: app.launchpad.mission_queue[0],
            }
        } else {
            ActionView::Idle
        },
    }
}

/// Decides what to do with one composite state; see [`decision`]. `now` is in
/// milliseconds on the clock of the drones' `enabled_at`.
pub fn handler(app: &AppState, name: &String, now: u64) -> (r: ControllerAction)
    ensures
        r@ == decision(app@, name@, now),
{
    match (&app.drone, &app.mission) {
        (Some(drone), Some(mission)) => match drone {
            DroneTwinState::Undefined(_) => ControllerAction::Idle,
            DroneTwinState::Ready(r) => {
                if !r.is_enabled(now) {
                    ControllerAction::EnableDrone { drone_id: r.id.clone(), launchpad_id: name.clone() }
                } else if !r.connected {
                    ControllerAction::Connect {
                        drone_id: r.id.clone(),
                        address: drone_address(r.ip.as_str()),
                    }
                } else {
                    ControllerAction::TakeOff { drone_id: r.id.clone(), mission_id: mission.id.clone() }
                }
            },
            DroneTwinState::Launched(l) => {
                if l.completed {
                    ControllerAction::Land { drone_id: l.id.clone(), mission_id: mission.id.clone() }
                } else {
                    match l.target_waypoint_id {
                        None => ControllerAction::ExecWaypoint {
                            drone_id: l.id.clone(),
                            mission_id: mission.id.clone(),
                            index: l.at_waypoint_id as u64 + 1,
                        },
                        Some(_) => ControllerAction::AwaitArrival,
                    }
                }
            },
            DroneTwinState::Used(_) => ControllerAction::Idle,
        },
        _ => {
            if app.launchpad.mission_queue.len() > 0 {
                ControllerAction::ActivateMission {
                    launchpad_id: name.clone(),
                    mission_id: app.launchpad.mission_queue[0].clone(),
                }
            } else {
                ControllerAction::Idle
            }
        },
    }
}

/// How one waypoint of a mission is carried out.
pub enum WaypointPlan {
    /// The mission has no waypoint there: it is complete.
    Complete,
    /// Report the start towards `waypoint_id`, run the commands, then report the
    /// arrival.
    Fly { waypoint_id: i32, commands: Vec<DroneCommand> },
}

/// The waypoint at `index`, where the mission has one whose index is a valid
/// waypoint id.
pub open spec fn waypoint_at(mission: MissionView, index: u64) -> Option<Waypoint> {
    if index < mission.waypoints.len() && index <= i32::MAX {
        Some(mission.waypoints[index as int])
    } else {
        None
    }
}

/// Plans the waypoint at `index` of `mission` for a drone now `height_cm` high.
pub fn plan_waypoint(mission: &MissionTwinState, index: u64, height_cm: i16) -> (r: WaypointPlan)
    ensures
        match waypoint_at(mission@, index) {
            None => r is Complete,
            Some(wp) => r matches WaypointPlan::Fly { waypoint_id, commands }
                && waypoint_id == index && commands@ == waypoint_commands_spec(wp, height_cm),
        },
{
    if index < mission.waypoints.len() as u64 && index <= i32::MAX as u64 {
        let wp = mission.waypoints[index as usize];
        WaypointPlan::Fly { waypoint_id: index as i32, commands: waypoint_commands(&wp, height_cm) }
    } else {
        WaypointPlan::Complete
    }
}

/// The battery level worth reporting for a drone whose live level is `live`:
/// the live level, when the projection carries a battery level, `live` is a
/// percentage and the two differ by at least the report threshold.
pub open spec fn battery_update(drone: DroneView, live: i32) -> Option<u8> {
    match battery_of(drone) {
        Some(b) => if 0 <= live <= FULL_BATTERY && (live - b >= BATTERY_REPORT_THRESHOLD || b
            - live >= BATTERY_REPORT_THRESHOLD) {
            Some(live as u8)
        } else {
            None
        },
        None => None,
    }
}

/// Compares the live battery level with the projected one; see [`battery_update`].
pub fn update_states(drone: &DroneTwinState, live: i32) -> (r: Option<u8>)
    ensures
        r == battery_update(drone@, live),
{
    let projected: u8 = match drone {
        DroneTwinState::Undefined(_) => return None,
        DroneTwinState::Ready(s) => s.battery,
        DroneTwinState::Launched(s) => s.battery,
        DroneTwinState::Used(s) => s.battery,
    };
    let b = projected as i32;
    if 0 <= live && live <= FULL_BATTERY as i32 && (live - b >= BATTERY_REPORT_THRESHOLD || b
        - live >= BATTERY_REPORT_THRESHOLD) {
        Some(live as u8)
    } else {
        None
    }
}

/// The mission twin a launchpad's current mission selects, if any.
pub fn current_mission_twin(s: &LaunchpadTwinState) -> (r: Option<MissionTwin>)
    ensures
        match r {
            Some(t) => opt_view(s.current_mission) == Some(t.id@),
            None => s.current_mission is None,
        },
{
    match &s.current_mission {
        Some(id) => Some(MissionTwin { id: id.clone() }),
        None => None,
    }
}

/// The drone twin of the drone attached to a launchpad, if any.
pub fn assigned_drone_twin(s: &LaunchpadTwinState) -> (r: Option<DroneTwin>)
    ensures
        match r {
            Some(t) => opt_view(s.attached_drone) == Some(t.id@),
            None => s.attached_drone is None,
        },
{
    match &s.attached_drone {
        Some(id) => Some(DroneTwin { id: id.clone() }),
        None => None,
    }
}

/// One mission twin for each mission id the registry lists.
pub fn registry_twins(s: &MissionRegistryState) -> (r: Vec<MissionTwin>)
    ensures
        r@.len() == s.ids@.len(),
        forall|i: int| 0 <= i < r@.len() ==> (#[trigger] r@[i]).id@ == ids_view(s.ids)[i],
{
    let mut out: Vec<MissionTwin> = Vec::new();
    let mut i: usize = 0;
    while i < s.ids.len()
        invariant
            0 <= i <= s.ids@.len(),
            out@.len() == i,
            forall|j: int| 0 <= j < i ==> (#[trigger] out@[j]).id@ == s.ids@[j]@,
        decreases s.ids@.len() - i,
    {
        out.push(MissionTwin { id: s.ids[i].clone() });
        i = i + 1;
    }
    out
}

/// The latest state seen on each of the controller's three twin streams.
pub struct ControllerCache {
    pub launchpad: Option<LaunchpadTwinState>,
    pub drone: Option<DroneTwinState>,
    pub mission: Option<MissionTwinState>,
}

pub struct CacheView {
    pub launchpad: Option<LaunchpadView>,
    pub drone: Option<DroneView>,
    pub mission: Option<MissionView>,
}

impl View for ControllerCache {
    type V = CacheView;

    open spec fn view(&self) -> CacheView {
        CacheView {
            launchpad: match self.launchpad {
                Some(s) => Some(s@),
                None => None,
            },
            drone: opt_drone_view(self.drone),
            mission: opt_mission_view(self.mission),
        }
    }
}

/// The composite state that the cache stands for, once a launchpad state is known.
pub open spec fn composite_of(c: CacheView) -> Option<AppView> {
    match c.launchpad {
        Some(l) => Some(AppView { launchpad: l, drone: c.drone, mission: c.mission }),
        None => None,
    }
}

pub open spec fn opt_app_view(o: Option<AppState>) -> Option<AppView> {
    match o {
        Some(a) => Some(a@),
        None => None,
    }
}

fn snapshot_opt<T: Snapshot>(o: &Option<T>) -> (r: Option<T>)
    ensures
        match (*o, r) {
            (Some(a), Some(b)) => b@ == a@,
            (None, None) => true,
            _ => false,
        },
{
    match o {
        Some(s) => Some(s.snapshot()),
        None => None,
    }
}

impl ControllerCache {
    pub fn new() -> (r: Self)
        ensures
            r@ == (CacheView { launchpad: None, drone: None, mission: None }),
    {
        ControllerCache { launchpad: None, drone: None, mission: None }
    }

    /// The composite state to hand to the handler, once a launchpad state is known.
    pub fn composite(&self) -> (r: Option<AppState>)
        ensures
            opt_app_view(r) == composite_of(self@),
    {
        match &self.launchpad {
            Some(l) => {
                let drone = snapshot_opt(&self.drone);
                let mission = snapshot_opt(&self.mission);
                let r = AppState { launchpad: l.snapshot(), drone, mission };
                proof {
                    assert(opt_drone_view(r.drone) == opt_drone_view(self.drone));
                    assert(opt_mission_view(r.mission) == opt_mission_view(self.mission));
                }
                Some(r)
            },
            None => None,
        }
    }

    /// Records a new launchpad state and returns the composite state to push.
    pub fn on_launchpad(&mut self, s: LaunchpadTwinState) -> (r: Option<AppState>)
        ensures
            final(self)@ == (CacheView { launchpad: Some(s@), ..old(self)@ }),
            opt_app_view(r) == composite_of(final(self)@),
            r is Some,
    {
        self.launchpad = Some(s);
        self.composite()
    }

    /// Records a new drone state and returns the composite state to push, if a
    /// launchpad state is known.
    pub fn on_drone(&mut self, s: DroneTwinState) -> (r: Option<AppState>)
        ensures
            final(self)@ == (CacheView { drone: Some(s@), ..old(self)@ }),
            opt_app_view(r) == composite_of(final(self)@),
    {
        self.drone = Some(s);
        self.composite()
    }

    /// Records a new mission state and returns the composite state to push, if a
    /// launchpad state is known.
    pub fn on_mission(&mut self, s: MissionTwinState) -> (r: Option<AppState>)
        ensures
            final(self)@ == (CacheView { mission: Some(s@), ..old(self)@ }),
            opt_app_view(r) == composite_of(final(self)@),
    {
        self.mission = Some(s);
        self.composite()
    }
}

} // verus!

use launchpad::controller::{
    assigned_drone_twin, current_mission_twin, drone_address, handler, plan_waypoint,
    registry_twins, update_states, AppState, ControllerAction, ControllerCache, WaypointPlan,
};
use launchpad::drone_twin::{
    tag_drone_id, tag_drone_mission_completed, tag_drone_mission_started, DroneTwinState,
    LaunchedState, ReadyState, UndefinedState, UsedState,
};
use launchpad::launchpad_twin::{tag_launchpad_id, LaunchpadTwinState};
use launchpad::mission_twin::{
    DelayWaypoint, GoToWaypoint, MissionRegistryState, MissionTwinState, TurnWaypoint, Waypoint,
};
use launchpad::waypoint::{DroneCommand, Leg};

const L: &str = "Launchpad-01";

fn s(x: &str) -> String {
    x.to_string()
}

fn launchpad(queue: &[&str]) -> LaunchpadTwinState {
    let mut lp = LaunchpadTwinState::default();
    lp.id = s(L);
    lp.mission_queue = queue.iter().map(|m| s(m)).collect();
    lp
}

fn mission() -> MissionTwinState {
    let mut m = MissionTwinState::default();
    m.id = s("M-01");
    m.waypoints = vec![
        Waypoint::Delay(DelayWaypoint { duration_ms: 100 }),
        Waypoint::Goto(GoToWaypoint {
            map_x: 0,
            map_y: 0,
            height: 150,
            angle: None,
            distance_cm: 718,
            duration_ms: 0,
        }),
        Waypoint::Turn(TurnWaypoint { deg: -90, duration_ms: 0 }),
    ];
    m
}

fn ready(enabled_at: Option<u64>, connected: bool) -> DroneTwinState {
    DroneTwinState::Ready(ReadyState {
        id: s("T1"),
        ip: s("192.168.10.1"),
        ssid: s("TELLO-1"),
        battery: 80,
        enabled_at,
        connected,
    })
}

fn launched(at: u32, target: Option<u32>, completed: bool) -> DroneTwinState {
    DroneTwinState::Launched(LaunchedState {
        id: s("T1"),
        ip: s("192.168.10.1"),
        ssid: s("TELLO-1"),
        mission_id: s("M-01"),
        at_waypoint_id: at,
        target_waypoint_id: target,
        completed,
        battery: 60,
    })
}

fn decide(drone: Option<DroneTwinState>, mission: Option<MissionTwinState>, now: u64) -> ControllerAction {
    let app = AppState { launchpad: launchpad(&["M-01", "M-02"]), drone, mission };
    handler(&app, &s(L), now)
}

#[test]
fn activates_the_first_queued_mission_without_a_drone() {
    match decide(None, None, 0) {
        ControllerAction::ActivateMission { launchpad_id, mission_id } => {
            assert_eq!(launchpad_id, L);
            assert_eq!(mission_id, "M-01");
        }
        _ => panic!("the queued mission is activated"),
    }
    match decide(Some(ready(None, false)), None, 0) {
        ControllerAction::ActivateMission { mission_id, .. } => assert_eq!(mission_id, "M-01"),
        _ => panic!("without a mission the queue decides"),
    }
    let app = AppState { launchpad: launchpad(&[]), drone: None, mission: None };
    assert!(matches!(handler(&app, &s(L), 0), ControllerAction::Idle));
}

#[test]
fn powers_a_drone_that_is_not_enabled() {
    match decide(Some(ready(None, false)), Some(mission()), 100_000) {
        ControllerAction::EnableDrone { drone_id, launchpad_id } => {
            assert_eq!(drone_id, "T1");
            assert_eq!(launchpad_id, L);
        }
        _ => panic!("the drone is powered"),
    }
    assert!(matches!(
        decide(Some(ready(Some(80_000), true)), Some(mission()), 95_000),
        ControllerAction::EnableDrone { .. }
    ));
}

#[test]
fn connects_then_takes_off_an_enabled_drone() {
    match decide(Some(ready(Some(90_000), false)), Some(mission()), 100_000) {
        ControllerAction::Connect { drone_id, address } => {
            assert_eq!(drone_id, "T1");
            assert_eq!(address, "192.168.10.1:8889");
        }
        _ => panic!("the drone is connected"),
    }
    match decide(Some(ready(Some(90_000), true)), Some(mission()), 100_000) {
        ControllerAction::TakeOff { drone_id, mission_id } => {
            assert_eq!(drone_id, "T1");
            assert_eq!(mission_id, "M-01");
        }
        _ => panic!("the drone takes off"),
    }
}

#[test]
fn flies_waits_and_lands() {
    match decide(Some(launched(0, None, false)), Some(mission()), 0) {
        ControllerAction::ExecWaypoint { drone_id, mission_id, index } => {
            assert_eq!(drone_id, "T1");
            assert_eq!(mission_id, "M-01");
            assert_eq!(index, 1);
        }
        _ => panic!("the next waypoint is flown"),
    }
    assert!(matches!(
        decide(Some(launched(1, Some(2), false)), Some(mission()), 0),
        ControllerAction::AwaitArrival
    ));
    match decide(Some(launched(2, None, true)), Some(mission()), 0) {
        ControllerAction::Land { drone_id, mission_id } => {
            assert_eq!(drone_id, "T1");
            assert_eq!(mission_id, "M-01");
        }
        _ => panic!("a completed mission lands"),
    }
}

#[test]
fn undefined_and_used_drones_are_left_alone() {
    let undefined = DroneTwinState::Undefined(UndefinedState { id: s("") });
    assert!(matches!(decide(Some(undefined), Some(mission()), 0), ControllerAction::Idle));
    let used = DroneTwinState::Used(UsedState {
        id: s("T1"),
        ip: s("ip"),
        ssid: s("ssid"),
        last_mission_id: s("M-01"),
        battery: 50,
    });
    assert!(matches!(decide(Some(used), Some(mission()), 0), ControllerAction::Idle));
}

#[test]
fn drone_address_adds_the_command_port() {
    assert_eq!(drone_address("192.168.10.1"), "192.168.10.1:8889");
    assert_eq!(drone_address("10.0.0.2:9000"), "10.0.0.2:9000");
    assert_eq!(drone_address(""), ":8889");
}

#[test]
fn plans_waypoints_of_the_mission() {
    let m = mission();
    match plan_waypoint(&m, 1, 50) {
        WaypointPlan::Fly { waypoint_id, commands } => {
            assert_eq!(waypoint_id, 1);
            assert!(commands == vec![
                DroneCommand::GoTo(Leg { x: 218, y: 0, z: 0, speed: 100 }),
                DroneCommand::GoTo(Leg { x: 500, y: 0, z: 100, speed: 100 }),
            ]);
        }
        _ => panic!("the goto waypoint is flown"),
    }
    match plan_waypoint(&m, 2, 0) {
        WaypointPlan::Fly { waypoint_id, commands } => {
            assert_eq!(waypoint_id, 2);
            assert!(commands == vec![DroneCommand::CounterClockwise(90)]);
        }
        _ => panic!("the turn waypoint is flown"),
    }
    assert!(matches!(plan_waypoint(&m, 3, 0), WaypointPlan::Complete));
    assert!(matches!(plan_waypoint(&m, u64::MAX, 0), WaypointPlan::Complete));
}

#[test]
fn battery_is_reported_on_a_large_difference() {
    let drone = ready(None, false);
    assert_eq!(update_states(&drone, 75), Some(75));
    assert_eq!(update_states(&drone, 85), Some(85));
    assert_eq!(update_states(&drone, 76), None);
    assert_eq!(update_states(&drone, 84), None);
    assert_eq!(update_states(&drone, -3), None);
    assert_eq!(update_states(&drone, 120), None);
    let undefined = DroneTwinState::Undefined(UndefinedState { id: s("") });
    assert_eq!(update_states(&undefined, 10), None);
}

#[test]
fn cache_pushes_only_with_a_launchpad() {
    let mut cache = ControllerCache::new();
    assert!(cache.on_drone(ready(None, false)).is_none());
    assert!(cache.on_mission(mission()).is_none());
    let app = cache.on_launchpad(launchpad(&["M-01"])).expect("a launchpad is known");
    assert!(app.drone.is_some());
    assert_eq!(app.mission.as_ref().map(|m| m.id.clone()), Some(s("M-01")));
    let app = cache.on_drone(launched(0, None, false)).expect("pushed");
    assert!(matches!(app.drone, Some(DroneTwinState::Launched(_))));
}

#[test]
fn selects_child_twins() {
    let mut lp = launchpad(&[]);
    assert!(current_mission_twin(&lp).is_none());
    assert!(assigned_drone_twin(&lp).is_none());
    lp.current_mission = Some(s("M-01"));
    lp.attached_drone = Some(s("T1"));
    assert_eq!(current_mission_twin(&lp).map(|t| t.id), Some(s("M-01")));
    assert_eq!(assigned_drone_twin(&lp).map(|t| t.id), Some(s("T1")));
    let reg = MissionRegistryState { ids: vec![s("A"), s("B")] };
    let twins: Vec<String> = registry_twins(&reg).into_iter().map(|t| t.id).collect();
    assert_eq!(twins, vec![s("A"), s("B")]);
}

#[test]
fn tags_of_published_events() {
    assert_eq!(tag_launchpad_id(L), vec![s("launchpad"), s("launchpad:Launchpad-01")]);
    assert_eq!(tag_drone_id("T1"), vec![s("drone"), s("drone:T1")]);
    assert_eq!(
        tag_drone_mission_started("T1"),
        vec![s("drone"), s("drone:T1"), s("drone.mission.started")]
    );
    assert_eq!(
        tag_drone_mission_completed("T1"),
        vec![s("drone"), s("drone:T1"), s("drone.mission.completed")]
    );
}

use launchpad::controller::{handler, AppState, ControllerAction};
use launchpad::drone_twin::{
    DroneArrivedAtWaypointEvent, DroneConnectedEvent, DroneDefinedEvent, DroneEvent, DroneLandedEvent,
    DroneLaunchedEvent, DroneMissionCompletedEvent, DroneStartedToNextWaypointEvent,
    DroneStatsUpdatedEvent, DroneTwin, DroneTwinState, Position,
};
use launchpad::launchpad_twin::{
    ActivateDroneTimeoutEvent, DroneActivatedEvent, DroneMountedEvent, DroneStartedEvent,
    LaunchPadEvent, LaunchPadRegisteredEvent, LaunchpadTwin, LaunchpadTwinState,
    MissionActivatedEvent, MissionQueuedEvent,
};
use launchpad::mission_twin::{
    DefineMissionEvent, DelayWaypoint, MissionEvent, MissionRegistryTwin, MissionTwin,
    ShowMissionEvent, Waypoint,
};
use launchpad::snapshot::Snapshot;
use launchpad::twin::{replay, session_id, tag_with_id, Twin};

const L: &str = "Launchpad-01";
const D: &str = "T1";
const M: &str = "M-01";

fn s(x: &str) -> String {
    x.to_string()
}

fn registration_events() -> Vec<LaunchPadEvent> {
    vec![
        LaunchPadEvent::LaunchPadRegistered(LaunchPadRegisteredEvent { id: s(L) }),
        LaunchPadEvent::DroneMounted(DroneMountedEvent { id: s(L), drone: s(D) }),
        LaunchPadEvent::DroneActivated(DroneActivatedEvent { id: s(L), drone: s(D) }),
    ]
}

#[test]
fn registration_mount_activate_scenario() {
    let lp = replay::<LaunchpadTwin>(&registration_events());
    assert_eq!(lp.id, L);
    assert_eq!(lp.attached_drone, Some(s(D)));
    assert!(lp.drone_enabled);
    assert_eq!(lp.current_mission, None);
    assert!(lp.mission_queue.is_empty());

    let drone = replay::<DroneTwin>(&vec![DroneEvent::DroneDefined(DroneDefinedEvent {
        id: s(D),
        ssid: s("TELLO-1"),
        ip: s("192.168.10.1"),
    })]);
    match drone {
        DroneTwinState::Ready(r) => {
            assert_eq!(r.id, D);
            assert_eq!(r.ip, "192.168.10.1");
            assert_eq!(r.ssid, "TELLO-1");
            assert_eq!(r.battery, 100);
            assert!(!r.connected);
            assert_eq!(r.enabled_at, None);
        }
        _ => panic!("a defined drone is ready"),
    }
}

#[test]
fn queue_then_activate_mission_scenario() {
    let mut events = registration_events();
    events.push(LaunchPadEvent::MissionQueued(MissionQueuedEvent {
        launchpad_id: s(L),
        mission_id: s(M),
    }));
    let lp = replay::<LaunchpadTwin>(&events);
    assert_eq!(lp.mission_queue, vec![s(M)]);
    assert_eq!(lp.current_mission, None);

    let app = AppState { launchpad: lp, drone: None, mission: None };
    match handler(&app, &s(L), 0) {
        ControllerAction::ActivateMission { launchpad_id, mission_id } => {
            assert_eq!(launchpad_id, L);
            assert_eq!(mission_id, M);
        }
        _ => panic!("the queued mission is activated"),
    }

    events.push(LaunchPadEvent::MissionActivated(MissionActivatedEvent {
        launchpad_id: s(L),
        mission_id: s(M),
    }));
    let lp = replay::<LaunchpadTwin>(&events);
    assert_eq!(lp.current_mission, Some(s(M)));
    assert_eq!(lp.mission_queue, vec![s(M)]);
}

#[test]
fn completion_from_the_attached_drone_consumes_the_mission() {
    let mut events = registration_events();
    for m in ["M-01", "M-02", "M-01", "M-03"] {
        events.push(LaunchPadEvent::MissionQueued(MissionQueuedEvent {
            launchpad_id: s(L),
            mission_id: s(m),
        }));
    }
    events.push(LaunchPadEvent::MissionActivated(MissionActivatedEvent {
        launchpad_id: s(L),
        mission_id: s(M),
    }));
    events.push(LaunchPadEvent::DroneMissionCompleted(DroneMissionCompletedEvent {
        id: s(D),
        mission_id: s(M),
    }));
    let lp = replay::<LaunchpadTwin>(&events);
    assert_eq!(lp.mission_queue, vec![s("M-02"), s("M-03")]);
    assert_eq!(lp.current_mission, None);
    assert_eq!(lp.attached_drone, None);
    assert_eq!(lp.id, L);
}

#[test]
fn completion_from_another_drone_changes_nothing() {
    let mut events = registration_events();
    events.push(LaunchPadEvent::MissionQueued(MissionQueuedEvent {
        launchpad_id: s(L),
        mission_id: s(M),
    }));
    let before = replay::<LaunchpadTwin>(&events);
    events.push(LaunchPadEvent::DroneMissionCompleted(DroneMissionCompletedEvent {
        id: s("T2"),
        mission_id: s(M),
    }));
    let after = replay::<LaunchpadTwin>(&events);
    assert!(before.same_as(&after));
}

#[test]
fn launchpad_drone_lifecycle_flags() {
    let mut state = LaunchpadTwinState::default();
    state = LaunchpadTwin::reducer(
        state,
        &LaunchPadEvent::DroneActivated(DroneActivatedEvent { id: s(L), drone: s(D) }),
    );
    assert!(state.drone_enabled);
    state = LaunchpadTwin::reducer(
        state,
        &LaunchPadEvent::ActivateDroneTimeout(ActivateDroneTimeoutEvent { id: s(L), drone: s(D) }),
    );
    assert!(!state.drone_enabled);
    assert_eq!(state.attached_drone, Some(s(D)));
    state = LaunchpadTwin::reducer(
        state,
        &LaunchPadEvent::MissionActivated(MissionActivatedEvent {
            launchpad_id: s(L),
            mission_id: s(M),
        }),
    );
    state = LaunchpadTwin::reducer(
        state,
        &LaunchPadEvent::DroneStarted(DroneStartedEvent {
            id: s(L),
            drone: s(D),
            mission_id: s(M),
        }),
    );
    assert_eq!(state.attached_drone, None);
    assert!(!state.drone_enabled);
    assert_eq!(state.current_mission, Some(s(M)));
}

#[test]
fn replay_is_a_function_of_the_events() {
    let events = registration_events();
    let a = replay::<LaunchpadTwin>(&events);
    let b = replay::<LaunchpadTwin>(&events);
    assert!(a.same_as(&b));
    let mut state = LaunchpadTwin::initial();
    for e in events.iter() {
        state = LaunchpadTwin::reducer(state, e);
    }
    assert!(state.same_as(&a));
}

fn defined() -> DroneEvent {
    DroneEvent::DroneDefined(DroneDefinedEvent { id: s(D), ssid: s("TELLO-1"), ip: s("192.168.10.1") })
}

fn launched_fields(state: &DroneTwinState) -> (u32, Option<u32>, bool, String) {
    match state {
        DroneTwinState::Launched(l) => {
            (l.at_waypoint_id, l.target_waypoint_id, l.completed, l.mission_id.clone())
        }
        _ => panic!("the drone should be in flight"),
    }
}

#[test]
fn drone_flight_lifecycle() {
    let mut events = vec![
        defined(),
        DroneEvent::DroneConnected(DroneConnectedEvent { id: s(D) }),
        DroneEvent::DroneLaunched(DroneLaunchedEvent { id: s(D), mission_id: s(M) }),
    ];
    let state = replay::<DroneTwin>(&events);
    assert_eq!(launched_fields(&state), (0, None, false, s(M)));

    events.push(DroneEvent::DroneStartedToNextWaypoint(DroneStartedToNextWaypointEvent {
        id: s(D),
        mission_id: s(M),
        waypoint_id: 1,
    }));
    assert_eq!(launched_fields(&replay::<DroneTwin>(&events)), (0, Some(1), false, s(M)));

    events.push(DroneEvent::DroneArrivedAtWaypoint(DroneArrivedAtWaypointEvent {
        id: s(D),
        mission_id: s(M),
        waypoint_id: 1,
    }));
    assert_eq!(launched_fields(&replay::<DroneTwin>(&events)), (1, None, false, s(M)));

    events.push(DroneEvent::DroneStartedToNextWaypoint(DroneStartedToNextWaypointEvent {
        id: s(D),
        mission_id: s(M),
        waypoint_id: 2,
    }));
    events.push(DroneEvent::DroneStartedToNextWaypoint(DroneStartedToNextWaypointEvent {
        id: s(D),
        mission_id: s(M),
        waypoint_id: 3,
    }));
    assert_eq!(launched_fields(&replay::<DroneTwin>(&events)), (2, Some(3), false, s(M)));

    events.push(DroneEvent::DroneMissionCompleted(DroneMissionCompletedEvent {
        id: s(D),
        mission_id: s(M),
    }));
    assert_eq!(launched_fields(&replay::<DroneTwin>(&events)), (2, None, true, s(M)));

    events.push(DroneEvent::DroneLanded(DroneLandedEvent {
        id: s(D),
        at: Position { x: 1, y: 2, z: 0 },
    }));
    match replay::<DroneTwin>(&events) {
        DroneTwinState::Used(u) => {
            assert_eq!(u.last_mission_id, M);
            assert_eq!(u.battery, 100);
            assert_eq!(u.ip, "192.168.10.1");
        }
        _ => panic!("a landed drone is used"),
    }

    events.push(DroneEvent::DroneConnected(DroneConnectedEvent { id: s(D) }));
    match replay::<DroneTwin>(&events) {
        DroneTwinState::Ready(r) => assert!(r.connected),
        _ => panic!("a reconnected drone is ready"),
    }
}

#[test]
fn started_without_launch_synthesizes_a_flight() {
    let events = vec![
        defined(),
        DroneEvent::DroneStartedToNextWaypoint(DroneStartedToNextWaypointEvent {
            id: s(D),
            mission_id: s(M),
            waypoint_id: 4,
        }),
    ];
    assert_eq!(launched_fields(&replay::<DroneTwin>(&events)), (3, Some(4), false, s(M)));
    let events = vec![
        defined(),
        DroneEvent::DroneStartedToNextWaypoint(DroneStartedToNextWaypointEvent {
            id: s(D),
            mission_id: s(M),
            waypoint_id: 0,
        }),
    ];
    assert_eq!(launched_fields(&replay::<DroneTwin>(&events)), (0, Some(0), false, s(M)));
}

#[test]
fn battery_updates_keep_a_percentage() {
    let mut state = replay::<DroneTwin>(&vec![defined()]);
    state = DroneTwin::handle_states_updated_event(
        state,
        &DroneStatsUpdatedEvent { id: s(D), battery: 57 },
    );
    state = DroneTwin::handle_states_updated_event(
        state,
        &DroneStatsUpdatedEvent { id: s(D), battery: 180 },
    );
    match state {
        DroneTwinState::Ready(r) => assert_eq!(r.battery, 57),
        _ => panic!("still ready"),
    }
}

#[test]
fn undefined_drone_ignores_everything_but_a_definition() {
    let state = replay::<DroneTwin>(&vec![
        DroneEvent::DroneConnected(DroneConnectedEvent { id: s(D) }),
        DroneEvent::DroneLaunched(DroneLaunchedEvent { id: s(D), mission_id: s(M) }),
    ]);
    assert!(state.same_as(&DroneTwinState::default()));
    assert_eq!(state.id(), "");
}

#[test]
fn mission_definition_and_visibility() {
    let wps = vec![Waypoint::Delay(DelayWaypoint { duration_ms: 10 })];
    let events = vec![
        MissionEvent::DefineMission(DefineMissionEvent { id: s(M), name: s("Tour"), waypoints: wps }),
        MissionEvent::ShowMission(ShowMissionEvent { id: s(M), visible: false }),
    ];
    let m = replay::<MissionTwin>(&events);
    assert_eq!(m.id, M);
    assert_eq!(m.name, "Tour");
    assert_eq!(m.waypoints.len(), 1);
    assert!(!m.visible);
    assert!(replay::<MissionTwin>(&vec![]).visible);
}

#[test]
fn registry_tracks_defined_and_hidden_missions() {
    let define = |id: &str| {
        MissionEvent::DefineMission(DefineMissionEvent { id: s(id), name: s("x"), waypoints: vec![] })
    };
    let events = vec![
        define("A"),
        define("B"),
        define("A"),
        MissionEvent::ShowMission(ShowMissionEvent { id: s("A"), visible: false }),
        MissionEvent::ShowMission(ShowMissionEvent { id: s("B"), visible: true }),
        define("C"),
    ];
    let reg = replay::<MissionRegistryTwin>(&events);
    let mut ids = reg.ids.clone();
    ids.sort();
    assert_eq!(ids, vec![s("B"), s("C")]);
}

#[test]
fn twin_identities_and_queries() {
    let lp = LaunchpadTwin::new(s(L));
    assert_eq!(session_id(&lp), "launchpad:Launchpad-01");
    assert_eq!(lp.query(), "FROM 'launchpad:Launchpad-01' | 'drone.mission.completed'");
    let drone = DroneTwin::new(s(D));
    assert_eq!(session_id(&drone), "drone:T1");
    assert_eq!(drone.query(), "FROM 'drone:T1'");
    assert_eq!(MissionTwin { id: s(M) }.query(), "FROM 'mission:M-01'");
    let reg = MissionRegistryTwin {};
    assert_eq!(session_id(&reg), "missionRegistry:reg");
    assert_eq!(reg.query(), "FROM 'mission'");
    assert_eq!(tag_with_id("drone", "T1"), vec![s("drone"), s("drone:T1")]);
}

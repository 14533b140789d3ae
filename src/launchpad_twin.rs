use crate::ids::{
    clone_ids, clone_opt, ids_view, ids_without, lemma_ids_without_contains, opt_view, remove_id,
    same_ids, same_opt,
};
use crate::drone_twin::DroneMissionCompletedEvent;
use crate::snapshot::Snapshot;
use crate::twin::{tag_with_id, tags_with_id, Twin};
use vstd::prelude::*;

verus! {

/// What a launchpad's projection holds.
pub struct LaunchpadView {
    pub id: Seq<char>,
    pub current_mission: Option<Seq<char>>,
    pub mission_queue: Seq<Seq<char>>,
    pub attached_drone: Option<Seq<char>>,
    pub drone_enabled: bool,
}

/// The projected state of a launchpad.
pub struct LaunchpadTwinState {
    pub id: String,
    pub current_mission: Option<String>,
    pub mission_queue: Vec<String>,
    pub attached_drone: Option<String>,
    pub drone_enabled: bool,
}

impl View for LaunchpadTwinState {
    type V = LaunchpadView;

    open spec fn view(&self) -> LaunchpadView {
        LaunchpadView {
            id: self.id@,
            current_mission: opt_view(self.current_mission),
            mission_queue: ids_view(self.mission_queue),
            attached_drone: opt_view(self.attached_drone),
            drone_enabled: self.drone_enabled,
        }
    }
}

/// The state of a launchpad that no event has touched yet.
pub open spec fn launchpad_initial() -> LaunchpadView {
    LaunchpadView {
        id: Seq::empty(),
        current_mission: None,
        mission_queue: Seq::empty(),
        attached_drone: None,
        drone_enabled: false,
    }
}

impl LaunchpadTwinState {
    pub fn default() -> (r: Self)
        ensures
            r@ == launchpad_initial(),
    {
        let r = LaunchpadTwinState {
            id: String::new(),
            current_mission: None,
            mission_queue: Vec::new(),
            attached_drone: None,
            drone_enabled: false,
        };
        proof {
            assert(ids_view(r.mission_queue) =~= Seq::<Seq<char>>::empty());
        }
        r
    }
}

impl Snapshot for LaunchpadTwinState {
    fn snapshot(&self) -> (r: Self) {
        LaunchpadTwinState {
            id: self.id.clone(),
            current_mission: clone_opt(&self.current_mission),
            mission_queue: clone_ids(&self.mission_queue),
            attached_drone: clone_opt(&self.attached_drone),
            drone_enabled: self.drone_enabled,
        }
    }

    fn same_as(&self, other: &Self) -> (r: bool) {
        self.id == other.id && same_opt(&self.current_mission, &other.current_mission)
            && same_ids(&self.mission_queue, &other.mission_queue) && same_opt(
            &self.attached_drone,
            &other.attached_drone,
        ) && self.drone_enabled == other.drone_enabled
    }
}

pub struct LaunchPadRegisteredEvent {
    pub id: String,
}

pub struct DroneMountedEvent {
    pub id: String,
    pub drone: String,
}

pub struct DroneActivatedEvent {
    pub id: String,
    pub drone: String,
}

pub struct ActivateDroneTimeoutEvent {
    pub id: String,
    pub drone: String,
}

pub struct DroneStartedEvent {
    pub id: String,
    pub drone: String,
    pub mission_id: String,
}

pub struct MissionQueuedEvent {
    pub launchpad_id: String,
    pub mission_id: String,
}

pub struct MissionActivatedEvent {
    pub launchpad_id: String,
    pub mission_id: String,
}

/// The events that a launchpad's projection consumes.
pub enum LaunchPadEvent {
    LaunchPadRegistered(LaunchPadRegisteredEvent),
    DroneMounted(DroneMountedEvent),
    DroneActivated(DroneActivatedEvent),
    ActivateDroneTimeout(ActivateDroneTimeoutEvent),
    DroneStarted(DroneStartedEvent),
    MissionQueued(MissionQueuedEvent),
    MissionActivated(MissionActivatedEvent),
    DroneMissionCompleted(DroneMissionCompletedEvent),
}

/// The effect of one event on a launchpad.
pub open spec fn launchpad_step(s: LaunchpadView, e: LaunchPadEvent) -> LaunchpadView {
    match e {
        LaunchPadEvent::LaunchPadRegistered(ev) => LaunchpadView { id: ev.id@, ..s },
        LaunchPadEvent::DroneMounted(ev) => LaunchpadView {
            attached_drone: Some(ev.drone@),
            drone_enabled: false,
            ..s
        },
        LaunchPadEvent::DroneActivated(ev) => LaunchpadView {
            attached_drone: Some(ev.drone@),
            drone_enabled: true,
            ..s
        },
        LaunchPadEvent::ActivateDroneTimeout(_) => LaunchpadView { drone_enabled: false, ..s },
        LaunchPadEvent::DroneStarted(_) => LaunchpadView {
            attached_drone: None,
            drone_enabled: false,
            ..s
        },
        LaunchPadEvent::MissionQueued(ev) => LaunchpadView {
            mission_queue: s.mission_queue.push(ev.mission_id@),
            ..s
        },
        LaunchPadEvent::MissionActivated(ev) => LaunchpadView {
            current_mission: Some(ev.mission_id@),
            ..s
        },
        LaunchPadEvent::DroneMissionCompleted(ev) => if s.attached_drone == Some(ev.id@) {
            LaunchpadView {
                current_mission: None,
                mission_queue: ids_without(s.mission_queue, ev.mission_id@),
                attached_drone: None,
                ..s
            }
        } else {
            s
        },
    }
}

/// A report that a mission is complete, from the drone attached to the
/// launchpad, takes exactly that mission out of the queue, keeping every other
/// id in its order, and clears the current mission and the attached drone. A
/// report from any other drone changes nothing.
pub proof fn lemma_queue_consumption(s: LaunchpadView, ev: DroneMissionCompletedEvent)
    ensures
        ({
            let r = launchpad_step(s, LaunchPadEvent::DroneMissionCompleted(ev));
            if s.attached_drone == Some(ev.id@) {
                &&& r.mission_queue == ids_without(s.mission_queue, ev.mission_id@)
                &&& !r.mission_queue.contains(ev.mission_id@)
                &&& forall|m: Seq<char>|
                    m != ev.mission_id@ ==> (#[trigger] r.mission_queue.contains(m)
                        <==> s.mission_queue.contains(m))
                &&& r.current_mission is None
                &&& r.attached_drone is None
                &&& r.id == s.id
                &&& r.drone_enabled == s.drone_enabled
            } else {
                r == s
            }
        }),
{
    if s.attached_drone == Some(ev.id@) {
        lemma_ids_without_contains(s.mission_queue, ev.mission_id@, ev.mission_id@);
        assert forall|m: Seq<char>| m != ev.mission_id@ implies (#[trigger] ids_without(
            s.mission_queue,
            ev.mission_id@,
        ).contains(m) <==> s.mission_queue.contains(m)) by {
            lemma_ids_without_contains(s.mission_queue, ev.mission_id@, m);
        }
    }
}

/// The twin of one launchpad, keyed by its name.
pub struct LaunchpadTwin {
    pub id: String,
}

impl LaunchpadTwin {
    pub fn new(id: String) -> (r: Self)
        ensures
            r.id@ == id@,
    {
        Self { id }
    }
}

impl Twin for LaunchpadTwin {
    type State = LaunchpadTwinState;

    type Event = LaunchPadEvent;

    open spec fn initial_spec() -> LaunchpadView {
        launchpad_initial()
    }

    open spec fn reduce_spec(state: LaunchpadView, event: LaunchPadEvent) -> LaunchpadView {
        launchpad_step(state, event)
    }

    open spec fn name_spec(&self) -> Seq<char> {
        "launchpad"@
    }

    open spec fn id_spec(&self) -> Seq<char> {
        self.id@
    }

    open spec fn query_spec(&self) -> Seq<char> {
        "FROM 'launchpad:"@ + self.id@ + "' | 'drone.mission.completed'"@
    }

    fn name(&self) -> (r: String) {
        "launchpad".to_string()
    }

    fn id(&self) -> (r: String) {
        self.id.clone()
    }

    fn query(&self) -> (r: String) {
        let mut q = "FROM 'launchpad:".to_string();
        q.append(self.id.as_str());
        q.append("' | 'drone.mission.completed'");
        q
    }

    fn initial() -> (r: LaunchpadTwinState) {
        LaunchpadTwinState::default()
    }

    fn reducer(state: LaunchpadTwinState, event: &LaunchPadEvent) -> (r: LaunchpadTwinState) {
        let mut s = state;
        match event {
            LaunchPadEvent::LaunchPadRegistered(ev) => {
                s.id = ev.id.clone();
            },
            LaunchPadEvent::DroneMounted(ev) => {
                s.attached_drone = Some(ev.drone.clone());
                s.drone_enabled = false;
            },
            LaunchPadEvent::DroneActivated(ev) => {
                s.attached_drone = Some(ev.drone.clone());
                s.drone_enabled = true;
            },
            LaunchPadEvent::ActivateDroneTimeout(_) => {
                s.drone_enabled = false;
            },
            LaunchPadEvent::DroneStarted(_) => {
                s.attached_drone = None;
                s.drone_enabled = false;
            },
            LaunchPadEvent::MissionQueued(ev) => {
                s.mission_queue.push(ev.mission_id.clone());
                proof {
                    assert(ids_view(s.mission_queue) =~= ids_view(state.mission_queue).push(
                        ev.mission_id@,
                    ));
                }
            },
            LaunchPadEvent::MissionActivated(ev) => {
                s.current_mission = Some(ev.mission_id.clone());
            },
            LaunchPadEvent::DroneMissionCompleted(ev) => {
                let attached = match &s.attached_drone {
                    Some(d) => *d == ev.id,
                    None => false,
                };
                if attached {
                    s.mission_queue = remove_id(&s.mission_queue, &ev.mission_id);
                    s.current_mission = None;
                    s.attached_drone = None;
                }
            },
        }
        s
    }
}

/// The tags of every event about the launchpad `id`.
pub fn tag_launchpad_id(id: &str) -> (r: Vec<String>)
    ensures
        ids_view(r) == tags_with_id("launchpad"@, id@),
{
    tag_with_id("launchpad", id)
}

} // verus!

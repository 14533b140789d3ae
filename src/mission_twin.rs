use crate::ids::{clone_ids, ids_view, lemma_ids_without_contains, remove_id};
use crate::snapshot::Snapshot;
use crate::twin::Twin;
use vstd::prelude::*;

verus! {

/// Fly straight ahead and settle at a height.
#[derive(Clone, Copy, PartialEq, Eq, Structural)]
pub struct GoToWaypoint {
    /// Where the waypoint sits on the mission map, rounded.
    pub map_x: i32,
    pub map_y: i32,
    /// The height to reach, in centimeters.
    pub height: i16,
    /// The heading on the map in degrees, rounded, where one was given.
    pub angle: Option<i32>,
    /// The distance to fly, in centimeters (the mission's meters times a
    /// hundred, rounded).
    pub distance_cm: i32,
    pub duration_ms: u32,
}

/// Turn on the spot; positive degrees turn clockwise.
#[derive(Clone, Copy, PartialEq, Eq, Structural)]
pub struct TurnWaypoint {
    pub deg: i16,
    pub duration_ms: u32,
}

/// Hover for a while.
#[derive(Clone, Copy, PartialEq, Eq, Structural)]
pub struct DelayWaypoint {
    pub duration_ms: u32,
}

/// One atomic step of a mission.
#[derive(Clone, Copy, PartialEq, Eq, Structural)]
pub enum Waypoint {
    Goto(GoToWaypoint),
    Turn(TurnWaypoint),
    Delay(DelayWaypoint),
}

fn clone_waypoints(v: &Vec<Waypoint>) -> (r: Vec<Waypoint>)
    ensures
        r@ == v@,
{
    let mut out: Vec<Waypoint> = Vec::new();
    let mut i: usize = 0;
    while i < v.len()
        invariant
            0 <= i <= v@.len(),
            out@ == v@.subrange(0, i as int),
        decreases v@.len() - i,
    {
        out.push(v[i]);
        i = i + 1;
        proof {
            assert(out@ =~= v@.subrange(0, i as int));
        }
    }
    proof {
        assert(v@.subrange(0, v@.len() as int) =~= v@);
    }
    out
}

fn same_waypoints(a: &Vec<Waypoint>, b: &Vec<Waypoint>) -> (r: bool)
    ensures
        r == (a@ == b@),
{
    if a.len() != b.len() {
        return false;
    }
    let mut i: usize = 0;
    while i < a.len()
        invariant
            a@.len() == b@.len(),
            0 <= i <= a@.len(),
            forall|j: int| 0 <= j < i ==> a@[j] == b@[j],
        decreases a@.len() - i,
    {
        if a[i] != b[i] {
            return false;
        }
        i = i + 1;
    }
    proof {
        assert(a@ =~= b@);
    }
    true
}

/// The projected state of a mission.
pub struct MissionTwinState {
    pub id: String,
    pub name: String,
    pub waypoints: Vec<Waypoint>,
    pub visible: bool,
}

/// What a mission's projection holds.
pub struct MissionView {
    pub id: Seq<char>,
    pub name: Seq<char>,
    pub waypoints: Seq<Waypoint>,
    pub visible: bool,
}

impl View for MissionTwinState {
    type V = MissionView;

    open spec fn view(&self) -> MissionView {
        MissionView {
            id: self.id@,
            name: self.name@,
            waypoints: self.waypoints@,
            visible: self.visible,
        }
    }
}

/// The state of a mission that no event has touched yet: unnamed, empty and
/// visible.
pub open spec fn mission_initial() -> MissionView {
    MissionView { id: Seq::empty(), name: Seq::empty(), waypoints: Seq::empty(), visible: true }
}

impl MissionTwinState {
    pub fn default() -> (r: Self)
        ensures
            r@ == mission_initial(),
    {
        let r = MissionTwinState {
            id: String::new(),
            name: String::new(),
            waypoints: Vec::new(),
            visible: true,
        };
        proof {
            assert(r.waypoints@ =~= Seq::<Waypoint>::empty());
        }
        r
    }
}

impl Snapshot for MissionTwinState {
    fn snapshot(&self) -> (r: Self) {
        MissionTwinState {
            id: self.id.clone(),
            name: self.name.clone(),
            waypoints: clone_waypoints(&self.waypoints),
            visible: self.visible,
        }
    }

    fn same_as(&self, other: &Self) -> (r: bool) {
        self.id == other.id && self.name == other.name && same_waypoints(
            &self.waypoints,
            &other.waypoints,
        ) && self.visible == other.visible
    }
}

pub struct DefineMissionEvent {
    pub id: String,
    pub name: String,
    pub waypoints: Vec<Waypoint>,
}

pub struct ShowMissionEvent {
    pub id: String,
    pub visible: bool,
}

/// The events of missions.
pub enum MissionEvent {
    DefineMission(DefineMissionEvent),
    ShowMission(ShowMissionEvent),
}

/// The effect of one event on a mission.
pub open spec fn mission_step(s: MissionView, e: MissionEvent) -> MissionView {
    match e {
        MissionEvent::DefineMission(ev) => MissionView {
            id: ev.id@,
            name: ev.name@,
            waypoints: ev.waypoints@,
            ..s
        },
        MissionEvent::ShowMission(ev) => MissionView { visible: ev.visible, ..s },
    }
}

/// The twin of one mission, keyed by its id.
pub struct MissionTwin {
    pub id: String,
}

impl Twin for MissionTwin {
    type State = MissionTwinState;

    type Event = MissionEvent;

    open spec fn initial_spec() -> MissionView {
        mission_initial()
    }

    open spec fn reduce_spec(state: MissionView, event: MissionEvent) -> MissionView {
        mission_step(state, event)
    }

    open spec fn name_spec(&self) -> Seq<char> {
        "mission"@
    }

    open spec fn id_spec(&self) -> Seq<char> {
        self.id@
    }

    open spec fn query_spec(&self) -> Seq<char> {
        "FROM 'mission:"@ + self.id@ + "'"@
    }

    fn name(&self) -> (r: String) {
        "mission".to_string()
    }

    fn id(&self) -> (r: String) {
        self.id.clone()
    }

    fn query(&self) -> (r: String) {
        let mut q = "FROM 'mission:".to_string();
        q.append(self.id.as_str());
        q.append("'");
        q
    }

    fn initial() -> (r: MissionTwinState) {
        MissionTwinState::default()
    }

    fn reducer(state: MissionTwinState, event: &MissionEvent) -> (r: MissionTwinState) {
        let mut s = state;
        match event {
            MissionEvent::DefineMission(e) => {
                s.id = e.id.clone();
                s.name = e.name.clone();
                s.waypoints = clone_waypoints(&e.waypoints);
            },
            MissionEvent::ShowMission(e) => {
                s.visible = e.visible;
            },
        }
        s
    }
}

/// The ids of all known, not hidden missions.
pub struct MissionRegistryState {
    pub ids: Vec<String>,
}

impl View for MissionRegistryState {
    type V = Set<Seq<char>>;

    open spec fn view(&self) -> Set<Seq<char>> {
        ids_view(self.ids).to_set()
    }
}

fn contains_id(v: &Vec<String>, id: &String) -> (r: bool)
    ensures
        r == ids_view(*v).contains(id@),
{
    let mut i: usize = 0;
    while i < v.len()
        invariant
            0 <= i <= v@.len(),
            forall|j: int| 0 <= j < i ==> ids_view(*v)[j] != id@,
        decreases v@.len() - i,
    {
        if v[i] == *id {
            proof {
                assert(ids_view(*v)[i as int] == id@);
            }
            return true;
        }
        i = i + 1;
    }
    false
}

/// Whether every id of `a` is also in `b`.
fn ids_within(a: &Vec<String>, b: &Vec<String>) -> (r: bool)
    ensures
        r == ids_view(*a).to_set().subset_of(ids_view(*b).to_set()),
{
    let mut i: usize = 0;
    while i < a.len()
        invariant
            0 <= i <= a@.len(),
            forall|j: int| 0 <= j < i ==> ids_view(*b).contains(#[trigger] ids_view(*a)[j]),
        decreases a@.len() - i,
    {
        if !contains_id(b, &a[i]) {
            proof {
                assert(ids_view(*a).to_set().contains(ids_view(*a)[i as int]));
            }
            return false;
        }
        i = i + 1;
    }
    proof {
        assert forall|x: Seq<char>| ids_view(*a).to_set().contains(x) implies ids_view(
            *b,
        ).to_set().contains(x) by {
            let j = choose|j: int| 0 <= j < ids_view(*a).len() && ids_view(*a)[j] == x;
            assert(ids_view(*b).contains(ids_view(*a)[j]));
        }
    }
    true
}

/// The registry with no mission known yet.
pub open spec fn registry_initial() -> Set<Seq<char>> {
    Set::empty()
}

/// The effect of one event on the registry: a definition adds its mission, an
/// order to hide a mission removes it.
pub open spec fn registry_step(s: Set<Seq<char>>, e: MissionEvent) -> Set<Seq<char>> {
    match e {
        MissionEvent::DefineMission(ev) => s.insert(ev.id@),
        MissionEvent::ShowMission(ev) => if ev.visible {
            s
        } else {
            s.remove(ev.id@)
        },
    }
}

impl MissionRegistryState {
    pub fn default() -> (r: Self)
        ensures
            r@ == registry_initial(),
    {
        let r = MissionRegistryState { ids: Vec::new() };
        proof {
            assert(ids_view(r.ids) =~= Seq::<Seq<char>>::empty());
            assert(r@ =~= Set::<Seq<char>>::empty());
        }
        r
    }
}

impl Snapshot for MissionRegistryState {
    fn snapshot(&self) -> (r: Self) {
        MissionRegistryState { ids: clone_ids(&self.ids) }
    }

    fn same_as(&self, other: &Self) -> (r: bool) {
        let r = ids_within(&self.ids, &other.ids) && ids_within(&other.ids, &self.ids);
        proof {
            if r {
                assert(self@ =~= other@);
            }
        }
        r
    }
}

/// The twin that lists every mission.
pub struct MissionRegistryTwin {}

impl Twin for MissionRegistryTwin {
    type State = MissionRegistryState;

    type Event = MissionEvent;

    open spec fn initial_spec() -> Set<Seq<char>> {
        registry_initial()
    }

    open spec fn reduce_spec(state: Set<Seq<char>>, event: MissionEvent) -> Set<Seq<char>> {
        registry_step(state, event)
    }

    open spec fn name_spec(&self) -> Seq<char> {
        "missionRegistry"@
    }

    open spec fn id_spec(&self) -> Seq<char> {
        "reg"@
    }

    open spec fn query_spec(&self) -> Seq<char> {
        "FROM 'mission'"@
    }

    fn name(&self) -> (r: String) {
        "missionRegistry".to_string()
    }

    fn id(&self) -> (r: String) {
        "reg".to_string()
    }

    fn query(&self) -> (r: String) {
        "FROM 'mission'".to_string()
    }

    fn initial() -> (r: MissionRegistryState) {
        MissionRegistryState::default()
    }

    fn reducer(state: MissionRegistryState, event: &MissionEvent) -> (r: MissionRegistryState) {
        let mut s = state;
        match event {
            MissionEvent::DefineMission(e) => {
                if !contains_id(&s.ids, &e.id) {
                    let ghost before = ids_view(s.ids);
                    s.ids.push(e.id.clone());
                    proof {
                        let after = ids_view(s.ids);
                        assert(after =~= before.push(e.id@));
                        assert forall|x: Seq<char>| #[trigger] after.contains(x) <==> (
                        before.contains(x) || x == e.id@) by {
                            if before.contains(x) {
                                let j = choose|j: int| 0 <= j < before.len() && before[j] == x;
                                assert(after[j] == x);
                            }
                            if x == e.id@ {
                                assert(after[before.len() as int] == x);
                            }
                            if after.contains(x) {
                                let j = choose|j: int| 0 <= j < after.len() && after[j] == x;
                                if j < before.len() {
                                    assert(before[j] == x);
                                }
                            }
                        }
                        assert(after.to_set() =~= before.to_set().insert(e.id@));
                    }
                } else {
                    proof {
                        assert(ids_view(s.ids).to_set() =~= ids_view(s.ids).to_set().insert(e.id@));
                    }
                }
            },
            MissionEvent::ShowMission(e) => {
                if !e.visible {
                    let ghost before = ids_view(s.ids);
                    s.ids = remove_id(&s.ids, &e.id);
                    proof {
                        let after = ids_view(s.ids);
                        assert forall|x: Seq<char>| #[trigger] after.contains(x) <==> (
                        before.contains(x) && x != e.id@) by {
                            lemma_ids_without_contains(before, e.id@, x);
                        }
                        assert(after.to_set() =~= before.to_set().remove(e.id@));
                    }
                }
            },
        }
        s
    }
}

} // verus!

use crate::ids::ids_view;
use crate::snapshot::Snapshot;
use vstd::prelude::*;

verus! {

/// A projection of one domain entity, obtained by folding its events.
pub trait Twin {
    /// The projected state.
    type State: Snapshot;

    /// The decoded events that the projection consumes.
    type Event;

    /// The state before any event.
    spec fn initial_spec() -> <Self::State as View>::V;

    /// The effect of one event on a state.
    spec fn reduce_spec(state: <Self::State as View>::V, event: Self::Event) -> <Self::State as View>::V;

    /// The twin's kind.
    spec fn name_spec(&self) -> Seq<char>;

    /// The entity's id.
    spec fn id_spec(&self) -> Seq<char>;

    /// The text of the twin's log query.
    spec fn query_spec(&self) -> Seq<char>;

    /// The twin's kind, the first half of its session key.
    fn name(&self) -> (r: String)
        ensures
            r@ == self.name_spec(),
    ;

    /// The entity's id, the second half of its session key.
    fn id(&self) -> (r: String)
        ensures
            r@ == self.id_spec(),
    ;

    /// The log query that selects the twin's events.
    fn query(&self) -> (r: String)
        ensures
            r@ == self.query_spec(),
    ;

    /// A fresh state, before any event.
    fn initial() -> (r: Self::State)
        ensures
            r@ == Self::initial_spec(),
    ;

    /// Applies one event; a pure function of the state and the event.
    fn reducer(state: Self::State, event: &Self::Event) -> (r: Self::State)
        ensures
            r@ == Self::reduce_spec(state@, *event),
    ;
}

/// The state reached from `state` by applying `events` in order.
pub open spec fn fold_from<T: Twin>(
    state: <T::State as View>::V,
    events: Seq<T::Event>,
) -> <T::State as View>::V
    decreases events.len(),
{
    if events.len() == 0 {
        state
    } else {
        T::reduce_spec(fold_from::<T>(state, events.drop_last()), events.last())
    }
}

/// The state that a twin shows after exactly `events`.
pub open spec fn projection<T: Twin>(events: Seq<T::Event>) -> <T::State as View>::V {
    fold_from::<T>(T::initial_spec(), events)
}

/// Replays a finite list of events from the initial state.
pub fn replay<T: Twin>(events: &Vec<T::Event>) -> (r: T::State)
    ensures
        r@ == projection::<T>(events@),
{
    let mut state = T::initial();
    let mut i: usize = 0;
    while i < events.len()
        invariant
            0 <= i <= events@.len(),
            state@ == fold_from::<T>(T::initial_spec(), events@.subrange(0, i as int)),
        decreases events@.len() - i,
    {
        proof {
            assert(events@.subrange(0, i + 1).drop_last() =~= events@.subrange(0, i as int));
        }
        state = T::reducer(state, &events[i]);
        i = i + 1;
    }
    proof {
        assert(events@.subrange(0, events@.len() as int) =~= events@);
    }
    state
}

/// Replaying a list in two parts gives what replaying it at once gives: the
/// projection depends on the events alone, and a twin that went on from an
/// earlier projection agrees with one that replays everything.
pub proof fn lemma_fold_append<T: Twin>(
    state: <T::State as View>::V,
    first: Seq<T::Event>,
    rest: Seq<T::Event>,
)
    ensures
        fold_from::<T>(fold_from::<T>(state, first), rest) == fold_from::<T>(state, first + rest),
    decreases rest.len(),
{
    if rest.len() == 0 {
        assert(first + rest =~= first);
    } else {
        lemma_fold_append::<T>(state, first, rest.drop_last());
        assert((first + rest).drop_last() =~= first + rest.drop_last());
    }
}

/// Two event lists that agree give the same projection, whichever way each was
/// reached: the projection is a function of the events.
pub proof fn lemma_projection_deterministic<T: Twin>(a: Seq<T::Event>, b: Seq<T::Event>)
    requires
        a == b,
    ensures
        projection::<T>(a) == projection::<T>(b),
{
}

/// The key under which a twin subscribes to the log: its name and id joined by
/// a colon.
pub open spec fn session_key(name: Seq<char>, id: Seq<char>) -> Seq<char> {
    name + ":"@ + id
}

/// The log session of a twin; see [`session_key`].
pub fn session_id<T: Twin>(twin: &T) -> (r: String)
    ensures
        r@ == session_key(twin.name_spec(), twin.id_spec()),
{
    let name = twin.name();
    let id = twin.id();
    let mut r = name.clone();
    r.append(":");
    r.append(id.as_str());
    proof {
        assert(r@ =~= session_key(name@, id@));
    }
    r
}

/// The tags of an entity: its kind alone, and its kind and id joined by a colon.
pub open spec fn tags_with_id(base: Seq<char>, id: Seq<char>) -> Seq<Seq<char>> {
    seq![base, base + ":"@ + id]
}

/// The tags of the entity `id` of kind `base`; see [`tags_with_id`].
pub fn tag_with_id(base: &str, id: &str) -> (r: Vec<String>)
    ensures
        ids_view(r) == tags_with_id(base@, id@),
{
    let mut with_id = base.to_string();
    with_id.append(":");
    with_id.append(id);
    let r = vec![base.to_string(), with_id];
    proof {
        assert(ids_view(r) =~= tags_with_id(base@, id@));
    }
    r
}

/// One response of a log subscription, its event already decoded.
pub enum SubscribeResponse<E> {
    /// An event; `None` when its payload is no event this twin knows.
    Event(Option<E>),
    /// The log's offsets moved: a sign of life.
    Offsets,
    /// Earlier events appeared: what was built so far is void.
    TimeTravel,
    /// Anything else.
    Other,
}

/// What the executor does after one response.
pub enum ExecutorStep<S> {
    /// Hand this state downstream.
    Emit(S),
    /// Open a new subscription and start over from the initial state.
    Resubscribe,
    /// Nothing.
    Ignore,
}

/// Drives one twin's projection from the responses of its log subscription.
pub struct TwinExecuter<T: Twin> {
    state: T::State,
    applied: Ghost<Seq<T::Event>>,
}

impl<T: Twin> TwinExecuter<T> {
    /// The events applied since the subscription began, in order.
    pub closed spec fn applied(&self) -> Seq<T::Event> {
        self.applied@
    }

    /// The projection held now.
    pub closed spec fn state(&self) -> <T::State as View>::V {
        self.state@
    }

    /// The projection held is the projection of the events applied.
    pub open spec fn wf(&self) -> bool {
        self.state() == projection::<T>(self.applied())
    }

    pub fn new() -> (r: Self)
        ensures
            r.wf(),
            r.applied() == Seq::<T::Event>::empty(),
    {
        TwinExecuter { state: T::initial(), applied: Ghost(Seq::empty()) }
    }

    /// A subscription begins: the projection starts over from the initial state,
    /// which is returned to be handed downstream.
    pub fn subscribe(&mut self) -> (r: T::State)
        ensures
            final(self).wf(),
            final(self).applied() == Seq::<T::Event>::empty(),
            r@ == T::initial_spec(),
    {
        self.state = T::initial();
        self.applied = Ghost(Seq::empty());
        self.state.snapshot()
    }

    /// Applies one response of the subscription.
    pub fn on_response(&mut self, response: SubscribeResponse<T::Event>) -> (r: ExecutorStep<
        T::State,
    >)
        requires
            old(self).wf(),
        ensures
            final(self).wf(),
            match response {
                SubscribeResponse::Event(Some(e)) => {
                    &&& final(self).applied() == old(self).applied().push(e)
                    &&& r matches ExecutorStep::Emit(s) && s@ == final(self).state()
                },
                SubscribeResponse::Event(None) | SubscribeResponse::Offsets => {
                    &&& final(self).applied() == old(self).applied()
                    &&& r matches ExecutorStep::Emit(s) && s@ == final(self).state()
                },
                SubscribeResponse::TimeTravel => {
                    &&& final(self).applied() == Seq::<T::Event>::empty()
                    &&& r is Resubscribe
                },
                SubscribeResponse::Other => {
                    &&& final(self).applied() == old(self).applied()
                    &&& r is Ignore
                },
            },
    {
        match response {
            SubscribeResponse::Event(Some(e)) => {
                let ghost applied = self.applied@.push(e);
                let mut s = T::initial();
                core::mem::swap(&mut self.state, &mut s);
                self.state = T::reducer(s, &e);
                self.applied = Ghost(applied);
                proof {
                    assert(applied.drop_last() =~= old(self).applied@);
                }
                ExecutorStep::Emit(self.state.snapshot())
            },
            SubscribeResponse::Event(None) | SubscribeResponse::Offsets => ExecutorStep::Emit(
                self.state.snapshot(),
            ),
            SubscribeResponse::TimeTravel => {
                self.state = T::initial();
                self.applied = Ghost(Seq::empty());
                ExecutorStep::Resubscribe
            },
            SubscribeResponse::Other => ExecutorStep::Ignore,
        }
    }
}

} // verus!

use vstd::prelude::*;

verus! {

/// What the caller does when the source of a switch-map produces.
pub enum SwitchStep {
    /// The mapping gave no inner stream: the current one, if any, stays.
    Keep,
    /// Drop the inner stream `cancel`, if given, before subscribing to the new
    /// inner stream, which is known from now on as `subscribe`.
    Switch { cancel: Option<u64>, subscribe: u64 },
}

/// Flattens a stream of inner streams, keeping only the latest inner stream
/// subscribed. Inner streams are told apart by a generation number that the
/// switch-map hands out; items of any inner stream but the current one are
/// dropped.
pub struct SwitchMap {
    active: Option<u64>,
    next: u64,
    source_done: bool,
    live: Ghost<Set<u64>>,
}

/// A switch-map with no inner stream yet.
pub fn switch_map() -> (r: SwitchMap)
    ensures
        r.active() is None,
        r.live() == Set::<u64>::empty(),
        !r.source_done(),
        r.inv(),
{
    SwitchMap { active: None, next: 0, source_done: false, live: Ghost(Set::empty()) }
}

impl SwitchMap {
    /// The generation of the inner stream currently subscribed.
    pub closed spec fn active(&self) -> Option<u64> {
        self.active
    }

    /// The generation the next inner stream gets.
    pub closed spec fn next_generation(&self) -> u64 {
        self.next
    }

    /// The inner streams subscribed and not cancelled.
    pub closed spec fn live(&self) -> Set<u64> {
        self.live@
    }

    /// Whether the source has ended.
    pub closed spec fn source_done(&self) -> bool {
        self.source_done
    }

    /// At most one inner stream is live, and it is the active one.
    pub open spec fn inv(&self) -> bool {
        &&& self.live().finite()
        &&& self.live().len() <= 1
        &&& match self.active() {
            Some(g) => self.live() == Set::<u64>::empty().insert(g),
            None => self.live() == Set::<u64>::empty(),
        }
    }

    /// The source produced an item; `selected` says whether the mapping gave an
    /// inner stream for it.
    pub fn on_source_item(&mut self, selected: bool) -> (r: SwitchStep)
        requires
            old(self).inv(),
        ensures
            final(self).inv(),
            final(self).source_done() == old(self).source_done(),
            if selected {
                &&& r == SwitchStep::Switch {
                    cancel: old(self).active(),
                    subscribe: old(self).next_generation(),
                }
                &&& final(self).active() == Some(old(self).next_generation())
                &&& final(self).next_generation() == old(self).next_generation().wrapping_add(1)
            } else {
                &&& r == SwitchStep::Keep
                &&& final(self).active() == old(self).active()
                &&& final(self).next_generation() == old(self).next_generation()
                &&& final(self).live() == old(self).live()
            },
    {
        if selected {
            let cancel = self.active;
            let g = self.next;
            self.active = Some(g);
            self.next = g.wrapping_add(1);
            proof {
                self.live = Ghost(Set::empty().insert(g));
                assert(self.live@.len() == 1);
            }
            SwitchStep::Switch { cancel, subscribe: g }
        } else {
            SwitchStep::Keep
        }
    }

    /// An item of the inner stream `generation`: handed on only when that stream
    /// is the current one.
    pub fn on_inner_item<T>(&self, generation: u64, item: T) -> (r: Option<T>)
        ensures
            r == if self.active() == Some(generation) {
                Some(item)
            } else {
                None
            },
    {
        match self.active {
            Some(g) => if g == generation {
                Some(item)
            } else {
                None
            },
            None => None,
        }
    }

    /// The inner stream `generation` ended; returns whether the flattened stream
    /// ends with it, which it does once the source has ended too.
    pub fn on_inner_end(&mut self, generation: u64) -> (r: bool)
        requires
            old(self).inv(),
        ensures
            final(self).inv(),
            final(self).source_done() == old(self).source_done(),
            final(self).next_generation() == old(self).next_generation(),
            final(self).active() == if old(self).active() == Some(generation) {
                None
            } else {
                old(self).active()
            },
            r == (final(self).source_done() && final(self).active() is None),
    {
        if self.active == Some(generation) {
            self.active = None;
            proof {
                self.live = Ghost(Set::empty());
            }
        }
        self.source_done && self.active.is_none()
    }

    /// The source ended; returns whether the flattened stream ends now, which it
    /// does unless an inner stream is still draining.
    pub fn on_source_end(&mut self) -> (r: bool)
        requires
            old(self).inv(),
        ensures
            final(self).inv(),
            final(self).source_done(),
            final(self).active() == old(self).active(),
            final(self).next_generation() == old(self).next_generation(),
            r == old(self).active() is None,
    {
        self.source_done = true;
        self.active.is_none()
    }
}

} // verus!

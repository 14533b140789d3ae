use crate::snapshot::Snapshot;
use vstd::prelude::*;

verus! {

/// Holds back the items of a stream until it has been quiet for a while, then
/// hands out the most recent one.
///
/// Time is given by the caller in milliseconds on a monotonic clock; a time
/// earlier than one already given counts as that earlier time.
pub struct Debounce<T> {
    pending: Option<T>,
    received_at: u64,
    clock: u64,
    debounce_ms: u64,
    emitted_at: Ghost<Seq<u64>>,
}

/// Whether consecutive times in `times` lie at least `gap` apart.
pub open spec fn spaced(times: Seq<u64>, gap: u64) -> bool {
    forall|i: int| 0 <= i < times.len() - 1 ==> times[i] + gap <= #[trigger] times[i + 1]
}

impl<T> Debounce<T> {
    #[verifier::type_invariant]
    spec fn inv(&self) -> bool {
        &&& self.received_at <= self.clock
        &&& spaced(self.emitted_at@, self.debounce_ms)
        &&& self.emitted_at@.len() > 0 ==> self.emitted_at@.last() <= self.clock
        &&& (self.pending is Some && self.emitted_at@.len() > 0) ==> self.emitted_at@.last()
            <= self.received_at
    }

    /// The item waiting to be handed out.
    pub closed spec fn pending(&self) -> Option<T> {
        self.pending
    }

    /// When the waiting item arrived.
    pub closed spec fn received_at(&self) -> u64 {
        self.received_at
    }

    /// The latest time given so far.
    pub closed spec fn clock(&self) -> u64 {
        self.clock
    }

    /// The quiet period.
    pub closed spec fn period(&self) -> u64 {
        self.debounce_ms
    }

    /// When each item was handed out after a quiet period, in order.
    pub closed spec fn emitted_at(&self) -> Seq<u64> {
        self.emitted_at@
    }

    pub fn new(debounce_ms: u64) -> (r: Self)
        ensures
            r.pending() is None,
            r.period() == debounce_ms,
            r.clock() == 0,
            r.emitted_at() == Seq::<u64>::empty(),
            spaced(r.emitted_at(), r.period()),
    {
        Debounce {
            pending: None,
            received_at: 0,
            clock: 0,
            debounce_ms,
            emitted_at: Ghost(Seq::empty()),
        }
    }

    /// Takes an item that arrived at `now`; it replaces any item still waiting.
    pub fn push(&mut self, item: T, now: u64)
        ensures
            final(self).pending() == Some(item),
            final(self).clock() == if now > old(self).clock() {
                now
            } else {
                old(self).clock()
            },
            final(self).received_at() == final(self).clock(),
            final(self).period() == old(self).period(),
            final(self).emitted_at() == old(self).emitted_at(),
            spaced(final(self).emitted_at(), final(self).period()),
    {
        proof {
            use_type_invariant(&*self);
        }
        let t = if now > self.clock {
            now
        } else {
            self.clock
        };
        *self = Debounce {
            pending: Some(item),
            received_at: t,
            clock: t,
            debounce_ms: self.debounce_ms,
            emitted_at: Ghost(self.emitted_at@),
        };
    }

    /// When the waiting item falls due, if one waits.
    pub fn deadline(&self) -> (r: Option<u64>)
        ensures
            match self.pending() {
                Some(_) => r == Some(
                    if self.received_at() + self.period() > u64::MAX {
                        u64::MAX
                    } else {
                        (self.received_at() + self.period()) as u64
                    },
                ),
                None => r is None,
            },
    {
        match self.pending {
            Some(_) => Some(self.received_at.saturating_add(self.debounce_ms)),
            None => None,
        }
    }

    /// Hands out the waiting item if the stream has been quiet for the whole
    /// period by `now`.
    pub fn poll(&mut self, now: u64) -> (r: Option<T>)
        ensures
            ({
                let t = if now > old(self).clock() {
                    now
                } else {
                    old(self).clock()
                };
                &&& final(self).clock() == t
                &&& final(self).period() == old(self).period()
                &&& if old(self).pending() is Some && old(self).received_at() + old(self).period()
                    <= t {
                    &&& r == old(self).pending()
                    &&& final(self).pending() is None
                    &&& final(self).emitted_at() == old(self).emitted_at().push(t)
                } else {
                    &&& r is None
                    &&& final(self).pending() == old(self).pending()
                    &&& final(self).received_at() == old(self).received_at()
                    &&& final(self).emitted_at() == old(self).emitted_at()
                }
            }),
            spaced(final(self).emitted_at(), final(self).period()),
        no_unwind
    {
        proof {
            use_type_invariant(&*self);
        }
        let t = if now > self.clock {
            now
        } else {
            self.clock
        };
        let due = match &self.pending {
            Some(_) => t - self.received_at >= self.debounce_ms,
            None => false,
        };
        if due {
            let ghost e = self.emitted_at@;
            let ghost e2 = e.push(t);
            proof {
                assert forall|i: int| 0 <= i < e2.len() - 1 implies e2[i] + self.debounce_ms
                    <= #[trigger] e2[i + 1] by {
                    if i < e.len() - 1 {
                        assert(e2[i + 1] == e[i + 1]);
                    }
                }
            }
            let mut out: Option<T> = None;
            core::mem::swap(&mut self.pending, &mut out);
            self.clock = t;
            self.emitted_at = Ghost(e2);
            out
        } else {
            self.clock = t;
            None
        }
    }

    /// The source has ended: hands out the waiting item at once, if any.
    pub fn finish(&mut self) -> (r: Option<T>)
        ensures
            r == old(self).pending(),
            final(self).pending() is None,
            final(self).clock() == old(self).clock(),
            final(self).period() == old(self).period(),
            final(self).emitted_at() == old(self).emitted_at(),
            spaced(final(self).emitted_at(), final(self).period()),
        no_unwind
    {
        proof {
            use_type_invariant(&*self);
        }
        let mut out: Option<T> = None;
        core::mem::swap(&mut self.pending, &mut out);
        out
    }
}

/// The items of `s` without immediate repetitions: an item equal to the one
/// forwarded just before it is dropped.
pub open spec fn distinct_spec<V>(s: Seq<V>) -> Seq<V>
    decreases s.len(),
{
    if s.len() == 0 {
        s
    } else {
        let d = distinct_spec(s.drop_last());
        if d.len() > 0 && d.last() == s.last() {
            d
        } else {
            d.push(s.last())
        }
    }
}

/// Whether no item of `s` equals the one just before it.
pub open spec fn no_repeats<V>(s: Seq<V>) -> bool {
    forall|i: int| 0 <= i < s.len() - 1 ==> s[i] != #[trigger] s[i + 1]
}

/// What distinct-until-changed forwards never holds an item twice in a row, for
/// every input sequence.
pub proof fn lemma_distinct_no_repeats<V>(s: Seq<V>)
    ensures
        no_repeats(distinct_spec(s)),
    decreases s.len(),
{
    if s.len() > 0 {
        let d = distinct_spec(s.drop_last());
        lemma_distinct_no_repeats(s.drop_last());
        if !(d.len() > 0 && d.last() == s.last()) {
            let e = d.push(s.last());
            assert forall|i: int| 0 <= i < e.len() - 1 implies e[i] != #[trigger] e[i + 1] by {
                if i < d.len() - 1 {
                    assert(e[i + 1] == d[i + 1]);
                }
            }
        }
    }
}

/// Forwards the items of a stream except those equal to the item forwarded just
/// before.
pub struct DistinctUntilChanged<T: Snapshot> {
    last: Option<T>,
    seen: Ghost<Seq<T::V>>,
}

impl<T: Snapshot> DistinctUntilChanged<T> {
    #[verifier::type_invariant]
    spec fn inv(&self) -> bool {
        match self.last {
            Some(l) => distinct_spec(self.seen@).len() > 0 && distinct_spec(self.seen@).last()
                == l@,
            None => distinct_spec(self.seen@).len() == 0,
        }
    }

    /// Every item offered so far, in order.
    pub closed spec fn seen(&self) -> Seq<T::V> {
        self.seen@
    }

    /// The views of the items forwarded so far.
    pub open spec fn forwarded(&self) -> Seq<T::V> {
        distinct_spec(self.seen())
    }

    pub fn new() -> (r: Self)
        ensures
            r.seen() == Seq::<T::V>::empty(),
    {
        DistinctUntilChanged { last: None, seen: Ghost(Seq::empty()) }
    }

    /// Offers one item; returns it unless it equals the item forwarded last.
    pub fn push(&mut self, item: T) -> (r: Option<T>)
        ensures
            final(self).seen() == old(self).seen().push(item@),
            match r {
                Some(x) => x == item && (old(self).forwarded().len() == 0
                    || old(self).forwarded().last() != item@),
                None => old(self).forwarded().len() > 0 && old(self).forwarded().last() == item@,
            },
    {
        proof {
            use_type_invariant(&*self);
        }
        let ghost s = self.seen@.push(item@);
        proof {
            assert(s.drop_last() =~= self.seen@);
        }
        let repeated = match &self.last {
            Some(l) => l.same_as(&item),
            None => false,
        };
        if repeated {
            self.seen = Ghost(s);
            None
        } else {
            *self = DistinctUntilChanged { last: Some(item.snapshot()), seen: Ghost(s) };
            Some(item)
        }
    }
}

/// The output stage of a twin executor: a debounce followed by a
/// distinct-until-changed. Consumers see coalesced states, never the same state
/// twice in a row, and states handed out after a quiet period lie at least the
/// period apart.
pub struct StateStream<T: Snapshot> {
    debounce: Debounce<T>,
    distinct: DistinctUntilChanged<T>,
    emitted_at: Ghost<Seq<u64>>,
}

impl<T: Snapshot> StateStream<T> {
    /// The views of the states handed out so far.
    pub open spec fn forwarded(&self) -> Seq<T::V> {
        self.distinct().forwarded()
    }

    pub closed spec fn distinct(&self) -> DistinctUntilChanged<T> {
        self.distinct
    }

    pub closed spec fn debounce(&self) -> Debounce<T> {
        self.debounce
    }

    /// When each state was handed out after a quiet period, in order.
    pub closed spec fn emitted_at(&self) -> Seq<u64> {
        self.emitted_at@
    }

    pub closed spec fn wf(&self) -> bool {
        &&& spaced(self.emitted_at@, self.debounce.period())
        &&& spaced(self.debounce.emitted_at(), self.debounce.period())
        &&& self.emitted_at@.len() > 0 ==> (self.debounce.emitted_at().len() > 0
            && self.emitted_at@.last() <= self.debounce.emitted_at().last())
    }

    /// The quiet period.
    pub open spec fn period(&self) -> u64 {
        self.debounce().period()
    }

    /// The state waiting for the stream to settle.
    pub open spec fn pending(&self) -> Option<T> {
        self.debounce().pending()
    }

    /// When the waiting state arrived.
    pub open spec fn received_at(&self) -> u64 {
        self.debounce().received_at()
    }

    /// The latest time given so far.
    pub open spec fn clock(&self) -> u64 {
        self.debounce().clock()
    }

    /// Every state that settled, in order, repeated or not.
    pub open spec fn settled(&self) -> Seq<T::V> {
        self.distinct().seen()
    }

    pub fn new(debounce_ms: u64) -> (r: Self)
        ensures
            r.wf(),
            r.period() == debounce_ms,
            r.settled() == Seq::<T::V>::empty(),
            r.pending() is None,
            r.clock() == 0,
            r.emitted_at() == Seq::<u64>::empty(),
    {
        let r = StateStream {
            debounce: Debounce::new(debounce_ms),
            distinct: DistinctUntilChanged::new(),
            emitted_at: Ghost(Seq::empty()),
        };
        proof {
            assert(distinct_spec(Seq::<T::V>::empty()) =~= Seq::<T::V>::empty());
        }
        r
    }

    /// Takes a state that the executor produced at `now`.
    pub fn push(&mut self, item: T, now: u64)
        requires
            old(self).wf(),
        ensures
            final(self).wf(),
            final(self).period() == old(self).period(),
            final(self).pending() == Some(item),
            final(self).clock() == if now > old(self).clock() {
                now
            } else {
                old(self).clock()
            },
            final(self).received_at() == final(self).clock(),
            final(self).settled() == old(self).settled(),
            final(self).emitted_at() == old(self).emitted_at(),
    {
        self.debounce.push(item, now);
    }

    /// When the waiting state falls due, if one waits.
    pub fn deadline(&self) -> (r: Option<u64>)
        ensures
            match self.pending() {
                Some(_) => r == Some(
                    if self.received_at() + self.period() > u64::MAX {
                        u64::MAX
                    } else {
                        (self.received_at() + self.period()) as u64
                    },
                ),
                None => r is None,
            },
    {
        self.debounce.deadline()
    }

    /// Hands out the waiting state if it is due at `now` and differs from the
    /// state handed out last.
    pub fn poll(&mut self, now: u64) -> (r: Option<T>)
        requires
            old(self).wf(),
        ensures
            final(self).wf(),
            final(self).period() == old(self).period(),
            ({
                let t = if now > old(self).clock() {
                    now
                } else {
                    old(self).clock()
                };
                &&& final(self).clock() == t
                &&& match old(self).pending() {
                    Some(p) => if old(self).received_at() + old(self).period() <= t {
                        &&& final(self).pending() is None
                        &&& final(self).settled() == old(self).settled().push(p@)
                        &&& if old(self).forwarded().len() == 0 || old(self).forwarded().last()
                            != p@ {
                            r == Some(p)
                        } else {
                            r is None
                        }
                    } else {
                        &&& r is None
                        &&& final(self).pending() == old(self).pending()
                        &&& final(self).received_at() == old(self).received_at()
                        &&& final(self).settled() == old(self).settled()
                    },
                    None => r is None && final(self).pending() is None && final(self).settled()
                        == old(self).settled(),
                }
            }),
            match r {
                Some(x) => final(self).forwarded() == old(self).forwarded().push(x@),
                None => final(self).forwarded() == old(self).forwarded(),
            },
            no_repeats(final(self).forwarded()),
            spaced(final(self).emitted_at(), final(self).period()),
    {
        let ghost before = self.distinct.seen();
        let ghost old_emitted = self.emitted_at@;
        let ghost old_debounced = self.debounce.emitted_at();
        let due = self.debounce.poll(now);
        proof {
            let d = self.debounce.emitted_at();
            if d.len() > old_debounced.len() && old_debounced.len() > 0 {
                let k = d.len() - 2;
                assert(d[k] + self.debounce.period() <= d[k + 1]);
                assert(d[k] == old_debounced.last());
            }
        }
        let r = match due {
            Some(x) => {
                let fwd = self.distinct.push(x);
                proof {
                    let seen = self.distinct.seen();
                    assert(seen.drop_last() =~= before);
                }
                match fwd {
                    Some(y) => {
                        let ghost t = self.debounce.clock();
                        proof {
                            let d = self.debounce.emitted_at();
                            assert(d == old_debounced.push(t));
                            let e2 = old_emitted.push(t);
                            if old_emitted.len() > 0 {
                                let k = d.len() - 2;
                                assert(d[k] + self.debounce.period() <= d[k + 1]);
                                assert(d[k] == old_debounced.last());
                            }
                            assert forall|i: int| 0 <= i < e2.len() - 1 implies e2[i] + self.debounce.period()
                                <= #[trigger] e2[i + 1] by {
                                if i < old_emitted.len() - 1 {
                                    assert(e2[i + 1] == old_emitted[i + 1]);
                                }
                            }
                            self.emitted_at = Ghost(e2);
                        }
                        Some(y)
                    },
                    None => None,
                }
            },
            None => None,
        };
        proof {
            lemma_distinct_no_repeats(self.distinct.seen());
        }
        r
    }

    /// The executor's channel closed: hands out the waiting state at once, if it
    /// differs from the state handed out last.
    pub fn finish(&mut self) -> (r: Option<T>)
        requires
            old(self).wf(),
        ensures
            final(self).pending() is None,
            match old(self).pending() {
                Some(p) => {
                    &&& final(self).settled() == old(self).settled().push(p@)
                    &&& if old(self).forwarded().len() == 0 || old(self).forwarded().last() != p@ {
                        r == Some(p)
                    } else {
                        r is None
                    }
                },
                None => r is None && final(self).settled() == old(self).settled(),
            },
            match r {
                Some(x) => final(self).forwarded() == old(self).forwarded().push(x@),
                None => final(self).forwarded() == old(self).forwarded(),
            },
            no_repeats(final(self).forwarded()),
    {
        let ghost before = self.distinct.seen();
        let r = match self.debounce.finish() {
            Some(x) => {
                let fwd = self.distinct.push(x);
                proof {
                    assert(self.distinct.seen().drop_last() =~= before);
                }
                fwd
            },
            None => None,
        };
        proof {
            lemma_distinct_no_repeats(self.distinct.seen());
        }
        r
    }
}

} // verus!

use crate::snapshot::Snapshot;
use vstd::prelude::*;

verus! {

/// The view of a slot.
pub open spec fn slot_view<T: View>(o: Option<T>) -> Option<T::V> {
    match o {
        Some(x) => Some(x@),
        None => None,
    }
}

/// Whether every slot holds a value.
pub open spec fn all_filled<V>(slots: Seq<Option<V>>) -> bool {
    forall|i: int| 0 <= i < slots.len() ==> #[trigger] slots[i] is Some
}

/// Combines several sources into one stream of vectors that holds the latest
/// item of each source. Nothing is emitted until every source has produced an
/// item; from then on every new item brings a vector.
pub struct CombineLatest<T: Snapshot> {
    slots: Vec<Option<T>>,
    open: Vec<bool>,
}

/// A combination of `n` sources, none of which has produced or ended yet.
pub fn combine_latest<T: Snapshot>(n: usize) -> (r: CombineLatest<T>)
    ensures
        r.slots().len() == n,
        forall|i: int| 0 <= i < n ==> #[trigger] r.slots()[i] is None,
        r.open_sources().len() == n,
        forall|i: int| 0 <= i < n ==> #[trigger] r.open_sources()[i],
{
    let mut slots: Vec<Option<T>> = Vec::new();
    let mut open: Vec<bool> = Vec::new();
    let mut i: usize = 0;
    while i < n
        invariant
            0 <= i <= n,
            slots@.len() == i,
            open@.len() == i,
            forall|j: int| 0 <= j < i ==> #[trigger] slots@[j] is None,
            forall|j: int| 0 <= j < i ==> #[trigger] open@[j],
        decreases n - i,
    {
        slots.push(None);
        open.push(true);
        i = i + 1;
    }
    let r = CombineLatest { slots, open };
    proof {
        assert forall|j: int| 0 <= j < n implies #[trigger] r.slots()[j] is None by {
            assert(r.slots@[j] is None);
        }
    }
    r
}

impl<T: Snapshot> CombineLatest<T> {
    /// The latest item of each source, where it has produced one.
    pub closed spec fn slots(&self) -> Seq<Option<T::V>> {
        self.slots@.map_values(|o: Option<T>| slot_view(o))
    }

    /// Which sources have not ended.
    pub closed spec fn open_sources(&self) -> Seq<bool> {
        self.open@
    }

    pub closed spec fn wf(&self) -> bool {
        self.slots@.len() == self.open@.len()
    }

    /// Takes an item of the source at `index` and returns the combined vector,
    /// once every source has produced. An index that names no source changes
    /// nothing.
    pub fn on_item(&mut self, index: usize, item: T) -> (r: Option<Vec<T>>)
        requires
            old(self).wf(),
        ensures
            final(self).wf(),
            final(self).open_sources() == old(self).open_sources(),
            index < old(self).slots().len() ==> final(self).slots() == old(self).slots().update(
                index as int,
                Some(item@),
            ),
            index >= old(self).slots().len() ==> final(self).slots() == old(self).slots(),
            match r {
                Some(v) => index < old(self).slots().len() && all_filled(final(self).slots())
                    && v@.len() == final(self).slots().len() && forall|i: int|
                    0 <= i < v@.len() ==> final(self).slots()[i] == Some(#[trigger] v@[i]@),
                None => index >= old(self).slots().len() || !all_filled(final(self).slots()),
            },
    {
        if index >= self.slots.len() {
            return None;
        }
        let ghost before = self.slots();
        self.slots.set(index, Some(item));
        proof {
            assert(self.slots() =~= before.update(index as int, Some(item@)));
        }
        let ghost slots_now = self.slots@;
        let ghost open_now = self.open@;
        let mut out: Vec<T> = Vec::new();
        let mut i: usize = 0;
        while i < self.slots.len()
            invariant
                self.slots@ == slots_now,
                self.open@ == open_now,
                open_now.len() == slots_now.len(),
                open_now == old(self).open@,
                before == old(self).slots(),
                index < before.len(),
                self.slots() == before.update(index as int, Some(item@)),
                0 <= i <= self.slots@.len(),
                out@.len() == i,
                forall|j: int| 0 <= j < i ==> self.slots()[j] == Some(#[trigger] out@[j]@),
            decreases self.slots@.len() - i,
        {
            match &self.slots[i] {
                Some(x) => {
                    out.push(x.snapshot());
                },
                None => {
                    proof {
                        assert(self.slots()[i as int] is None);
                    }
                    return None;
                },
            }
            i = i + 1;
        }
        proof {
            assert forall|j: int| 0 <= j < self.slots().len() implies #[trigger] self.slots()[j] is Some by {
                assert(self.slots()[j] == Some(out@[j]@));
            }
        }
        Some(out)
    }

    /// Marks the source at `index` as ended; returns whether every source has
    /// now ended, which ends the combined stream. Its latest item stays.
    pub fn on_end(&mut self, index: usize) -> (r: bool)
        requires
            old(self).wf(),
        ensures
            final(self).wf(),
            final(self).slots() == old(self).slots(),
            index < old(self).open_sources().len() ==> final(self).open_sources() == old(self).open_sources().update(index as int, false),
            index >= old(self).open_sources().len() ==> final(self).open_sources() == old(self).open_sources(),
            r == forall|i: int|
                0 <= i < final(self).open_sources().len() ==> !#[trigger] final(self).open_sources()[i],
    {
        if index < self.open.len() {
            self.open.set(index, false);
        }
        let ghost slots_now = self.slots@;
        let ghost open_now = self.open@;
        let mut i: usize = 0;
        while i < self.open.len()
            invariant
                self.slots@ == slots_now,
                self.open@ == open_now,
                slots_now == old(self).slots@,
                open_now.len() == slots_now.len(),
                index < old(self).open@.len() ==> open_now == old(self).open@.update(index as int, false),
                index >= old(self).open@.len() ==> open_now == old(self).open@,
                0 <= i <= self.open@.len(),
                forall|j: int| 0 <= j < i ==> !#[trigger] self.open@[j],
            decreases self.open@.len() - i,
        {
            if self.open[i] {
                proof {
                    assert(self.open_sources()[i as int]);
                }
                return false;
            }
            i = i + 1;
        }
        true
    }
}

} // verus!

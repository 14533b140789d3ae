use vstd::prelude::*;

verus! {

/// A value that a state stream can hand out more than once and compare with the
/// value it handed out last.
///
/// Equality is equality of views: two snapshots are the same exactly when they
/// describe the same abstract state.
pub trait Snapshot: View + Sized {
    /// An independent copy with the same view.
    fn snapshot(&self) -> (r: Self)
        ensures
            r@ == self@,
    ;

    /// Whether both values describe the same abstract state.
    fn same_as(&self, other: &Self) -> (r: bool)
        ensures
            r == (self@ == other@),
    ;
}

impl Snapshot for u64 {
    fn snapshot(&self) -> (r: Self) {
        *self
    }

    fn same_as(&self, other: &Self) -> (r: bool) {
        *self == *other
    }
}

impl Snapshot for String {
    fn snapshot(&self) -> (r: Self) {
        self.clone()
    }

    fn same_as(&self, other: &Self) -> (r: bool) {
        *self == *other
    }
}

} // verus!

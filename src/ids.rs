use vstd::prelude::*;

verus! {

/// The view of an optional id.
pub open spec fn opt_view(o: Option<String>) -> Option<Seq<char>> {
    match o {
        Some(s) => Some(s@),
        None => None,
    }
}

/// The view of a list of ids.
pub open spec fn ids_view(v: Vec<String>) -> Seq<Seq<char>> {
    v@.map_values(|s: String| s@)
}

pub(crate) fn clone_opt(o: &Option<String>) -> (r: Option<String>)
    ensures
        opt_view(r) == opt_view(*o),
{
    match o {
        Some(s) => Some(s.clone()),
        None => None,
    }
}

pub(crate) fn same_opt(a: &Option<String>, b: &Option<String>) -> (r: bool)
    ensures
        r == (opt_view(*a) == opt_view(*b)),
{
    match (a, b) {
        (Some(x), Some(y)) => *x == *y,
        (None, None) => true,
        _ => false,
    }
}

pub(crate) fn clone_ids(v: &Vec<String>) -> (r: Vec<String>)
    ensures
        ids_view(r) == ids_view(*v),
{
    let mut out: Vec<String> = Vec::new();
    let mut i: usize = 0;
    while i < v.len()
        invariant
            0 <= i <= v@.len(),
            out@.len() == i,
            forall|j: int| 0 <= j < i ==> (#[trigger] out@[j])@ == v@[j]@,
        decreases v@.len() - i,
    {
        out.push(v[i].clone());
        i = i + 1;
    }
    proof {
        assert(ids_view(out) =~= ids_view(*v));
    }
    out
}

pub(crate) fn same_ids(a: &Vec<String>, b: &Vec<String>) -> (r: bool)
    ensures
        r == (ids_view(*a) == ids_view(*b)),
{
    if a.len() != b.len() {
        proof {
            assert(ids_view(*a).len() != ids_view(*b).len());
        }
        return false;
    }
    let mut i: usize = 0;
    while i < a.len()
        invariant
            a@.len() == b@.len(),
            0 <= i <= a@.len(),
            forall|j: int| 0 <= j < i ==> ids_view(*a)[j] == ids_view(*b)[j],
        decreases a@.len() - i,
    {
        if a[i] != b[i] {
            proof {
                assert(ids_view(*a)[i as int] != ids_view(*b)[i as int]);
            }
            return false;
        }
        i = i + 1;
    }
    proof {
        assert(ids_view(*a) =~= ids_view(*b));
    }
    true
}

/// The list with every occurrence of `id` taken out, the rest in order.
pub open spec fn ids_without(ids: Seq<Seq<char>>, id: Seq<char>) -> Seq<Seq<char>> {
    ids.filter(|m: Seq<char>| m != id)
}

/// An id survives the removal of `id` from a list exactly when it was there
/// and is another id.
pub proof fn lemma_ids_without_contains(ids: Seq<Seq<char>>, id: Seq<char>, x: Seq<char>)
    ensures
        ids_without(ids, id).contains(x) <==> (ids.contains(x) && x != id),
    decreases ids.len(),
{
    reveal(Seq::filter);
    let pred = |m: Seq<char>| m != id;
    if ids.len() > 0 {
        let init = ids.drop_last();
        lemma_ids_without_contains(init, id, x);
        let rest = ids_without(init, id);
        assert(ids_without(ids, id) == if pred(ids.last()) {
            rest.push(ids.last())
        } else {
            rest
        });
        if ids.contains(x) && x != id {
            let j = choose|j: int| 0 <= j < ids.len() && ids[j] == x;
            if j < init.len() {
                assert(init[j] == x);
            }
        }
        if init.contains(x) {
            let j = choose|j: int| 0 <= j < init.len() && init[j] == x;
            assert(ids[j] == x);
        }
        if rest.push(ids.last()).contains(x) {
            let j = choose|j: int| 0 <= j < rest.len() + 1 && rest.push(ids.last())[j] == x;
            if j < rest.len() {
                assert(rest[j] == x);
            }
        }
        if rest.contains(x) {
            let j = choose|j: int| 0 <= j < rest.len() && rest[j] == x;
            assert(rest.push(ids.last())[j] == x);
        }
    }
}

/// The list without `id`, computed element by element.
pub(crate) fn remove_id(ids: &Vec<String>, id: &String) -> (r: Vec<String>)
    ensures
        ids_view(r) == ids_without(ids_view(*ids), id@),
{
    let ghost pred = |m: Seq<char>| m != id@;
    let ghost all = ids_view(*ids);
    let ghost mut kept: Seq<Seq<char>> = Seq::empty();
    let mut out: Vec<String> = Vec::new();
    let mut i: usize = 0;
    proof {
        reveal(Seq::filter);
        assert(all.subrange(0, 0) =~= Seq::<Seq<char>>::empty());
    }
    while i < ids.len()
        invariant
            0 <= i <= ids@.len(),
            all == ids_view(*ids),
            pred == (|m: Seq<char>| m != id@),
            kept == all.subrange(0, i as int).filter(pred),
            out@.len() == kept.len(),
            forall|j: int| 0 <= j < kept.len() ==> (#[trigger] out@[j])@ == kept[j],
        decreases ids@.len() - i,
    {
        let ghost next = all.subrange(0, i + 1);
        proof {
            reveal(Seq::filter);
            assert(next.drop_last() =~= all.subrange(0, i as int));
            assert(next.last() == ids@[i as int]@);
            assert(next.filter(pred) == if pred(next.last()) {
                next.drop_last().filter(pred).push(next.last())
            } else {
                next.drop_last().filter(pred)
            });
        }
        if ids[i] != *id {
            out.push(ids[i].clone());
            proof {
                kept = kept.push(all[i as int]);
            }
        }
        i = i + 1;
    }
    proof {
        assert(all.subrange(0, ids@.len() as int) =~= all);
        assert(ids_view(out) =~= kept);
    }
    out
}

} // verus!

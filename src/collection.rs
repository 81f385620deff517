use vstd::prelude::*;

verus! {

/// `r` is what draining `probe` yields: every item of `r` is what the probe
/// gave at its index, and the probe reported the first index past `r` absent
/// (unless every `u32` index held an item).
pub open spec fn drained_by<T, F: Fn(u32) -> Option<T>>(probe: F, r: Seq<T>) -> bool {
    &&& r.len() <= u32::MAX + 1
    &&& forall|k: int| 0 <= k < r.len() ==> #[trigger] probe.ensures((k as u32,), Some(r[k]))
    &&& r.len() <= u32::MAX ==> probe.ensures((r.len() as u32,), None)
}

/// Drains an indexable collection into an owned sequence: asks `probe` for
/// the items at indices 0, 1, 2, ... and stops at the first absent one.
pub fn materialize<T, F: Fn(u32) -> Option<T>>(probe: F) -> (r: Vec<T>)
    requires
        forall|i: u32| probe.requires((i,)),
    ensures
        drained_by(probe, r@),
{
    let mut items: Vec<T> = Vec::new();
    let mut i: u32 = 0;
    loop
        invariant
            forall|j: u32| probe.requires((j,)),
            items.len() == i,
            forall|k: int| 0 <= k < items.len() ==> #[trigger] probe.ensures((k as u32,), Some(items@[k])),
        decreases u32::MAX - i,
    {
        match probe(i) {
            None => {
                return items;
            },
            Some(item) => {
                items.push(item);
                if i == u32::MAX {
                    return items;
                }
                i = i + 1;
            },
        }
    }
}

/// What a collection that holds `items` answers at `index`: the item there,
/// or absent past the end.
pub open spec fn item_at<T>(items: Seq<T>, index: u32) -> Option<T> {
    if index < items.len() {
        Some(items[index as int])
    } else {
        None
    }
}

/// Draining a collection that holds `items` at indices `0..items.len()` and
/// nothing at `items.len()` gives exactly `items`, in order; an empty
/// collection gives an empty sequence.
pub proof fn lemma_materialize_exact<T, F: Fn(u32) -> Option<T>>(probe: F, items: Seq<T>, r: Seq<T>)
    requires
        items.len() <= u32::MAX,
        forall|i: u32, o: Option<T>| #[trigger] probe.ensures((i,), o) ==> o == item_at(items, i),
        drained_by(probe, r),
    ensures
        r == items,
{
    if r.len() < items.len() {
        assert(probe.ensures((r.len() as u32,), None));
    } else if r.len() > items.len() {
        assert(probe.ensures((items.len() as u32,), Some(r[items.len() as int])));
    }
    assert forall|k: int| 0 <= k < r.len() implies r[k] == items[k] by {
        assert(probe.ensures((k as u32,), Some(r[k])));
    }
    assert(r =~= items);
}

} // verus!

//! Nearest-hit resolution over the objects of a scene.
//!
//! Each object reports the distance of its hit inside the acceptance window,
//! or nothing. Distances come as keys that order as the
//! distances do. The object that wins is the nearest one; on an exact tie the
//! one inserted first.
use vstd::prelude::*;

verus! {

/// Whether object `i` holds the winning hit among `keys`: it was hit, no
/// object was hit nearer, and every earlier object was missed or hit farther.
pub open spec fn is_nearest(keys: Seq<Option<u64>>, i: int) -> bool {
    &&& 0 <= i < keys.len()
    &&& keys[i] is Some
    &&& forall|j: int|
        0 <= j < keys.len() && (#[trigger] keys[j]) is Some ==> keys[i]->0 <= keys[j]->0
    &&& forall|j: int| 0 <= j < i && (#[trigger] keys[j]) is Some ==> keys[i]->0 < keys[j]->0
}

/// Whether no object was hit.
pub open spec fn all_missed(keys: Seq<Option<u64>>) -> bool {
    forall|j: int| 0 <= j < keys.len() ==> (#[trigger] keys[j]) is None
}

/// Scans the objects in insertion order, lowering the ceiling to each closer
/// hit, and returns the index of the nearest hit, or `None` when nothing was hit.
pub fn nearest(keys: &Vec<Option<u64>>) -> (r: Option<usize>)
    ensures
        r is None <==> all_missed(keys@),
        r matches Some(i) ==> is_nearest(keys@, i as int),
{
    let mut best: Option<usize> = None;
    let mut ceiling: u64 = 0;
    let mut k: usize = 0;
    while k < keys.len()
        invariant
            k <= keys@.len(),
            best is None ==> forall|j: int| 0 <= j < k ==> (#[trigger] keys@[j]) is None,
            best matches Some(b) ==> {
                &&& b < k
                &&& keys@[b as int] == Some(ceiling)
                &&& forall|j: int|
                    0 <= j < k && (#[trigger] keys@[j]) is Some ==> ceiling <= keys@[j]->0
                &&& forall|j: int|
                    0 <= j < b && (#[trigger] keys@[j]) is Some ==> ceiling < keys@[j]->0
            },
        decreases keys@.len() - k,
    {
        if let Some(t) = keys[k] {
            let closer = match best {
                None => true,
                Some(_) => t < ceiling,
            };
            if closer {
                best = Some(k);
                ceiling = t;
            }
        }
        k += 1;
    }
    best
}

/// An entry at index `k` of `a` stands at some index of every reordering `b`.
proof fn lemma_reordered_entry(a: Seq<Option<u64>>, b: Seq<Option<u64>>, k: int) -> (m: int)
    requires
        a.to_multiset() == b.to_multiset(),
        0 <= k < a.len(),
    ensures
        0 <= m < b.len(),
        b[m] == a[k],
{
    a.to_multiset_ensures();
    b.to_multiset_ensures();
    assert(a.contains(a[k]));
    assert(a.to_multiset().count(a[k]) > 0);
    assert(b.contains(a[k]));
    choose|m: int| 0 <= m < b.len() && b[m] == a[k]
}

/// The order of insertion does not change the outcome up to exact ties: over
/// the same hits in any two orders, either both scans find nothing, or both
/// find a nearest hit and the two lie at the same distance.
pub proof fn lemma_nearest_order_free(
    a: Seq<Option<u64>>,
    b: Seq<Option<u64>>,
    i: int,
    j: int,
)
    requires
        a.to_multiset() == b.to_multiset(),
    ensures
        all_missed(a) <==> all_missed(b),
        is_nearest(a, i) && is_nearest(b, j) ==> a[i] == b[j],
{
    if !all_missed(a) {
        let k = choose|k: int| 0 <= k < a.len() && !(#[trigger] a[k] is None);
        let m = lemma_reordered_entry(a, b, k);
        assert(!(b[m] is None));
    }
    if !all_missed(b) {
        let k = choose|k: int| 0 <= k < b.len() && !(#[trigger] b[k] is None);
        let m = lemma_reordered_entry(b, a, k);
        assert(!(a[m] is None));
    }
    if is_nearest(a, i) && is_nearest(b, j) {
        let k = lemma_reordered_entry(a, b, i);
        assert(b[k] is Some);
        let m = lemma_reordered_entry(b, a, j);
        assert(a[m] is Some);
    }
}

} // verus!

//! Sequential tracing decisions.
//!
//! Each element's intersection with a ray is given as an optional distance key: `None` when the
//! ray misses the element, otherwise a key that orders as the distances do (a nearer hit has a
//! smaller key).
use vstd::prelude::*;

use crate::surface::RayBehaviour;

verus! {

/// Some element is hit at all.
pub open spec fn any_hit(hits: Seq<Option<u64>>) -> bool {
    exists|j: int| 0 <= j < hits.len() && #[trigger] hits[j] is Some
}

/// Element `i` is hit, no element is hit nearer, and every element before it is hit farther
/// away or not at all: the nearest hit, the first one among equals.
pub open spec fn is_closest(hits: Seq<Option<u64>>, i: int) -> bool {
    &&& 0 <= i < hits.len()
    &&& hits[i] is Some
    &&& forall|j: int|
        0 <= j < hits.len() && #[trigger] hits[j] is Some ==> hits[i]->0 <= hits[j]->0
    &&& forall|j: int| 0 <= j < i && #[trigger] hits[j] is Some ==> hits[i]->0 < hits[j]->0
}

/// The nearest element is decided by the hits alone: at most one index is the closest.
pub proof fn lemma_closest_unique(hits: Seq<Option<u64>>, i: int, j: int)
    requires
        is_closest(hits, i),
        is_closest(hits, j),
    ensures
        i == j,
{
    if i < j {
        assert(hits[i] is Some);
    } else if j < i {
        assert(hits[j] is Some);
    }
}

/// The nearest hit's distance does not depend on the order in which the elements are listed:
/// in any reordering of the hits, the closest element lies at the same distance.
pub proof fn lemma_closest_distance_order_free(
    hits: Seq<Option<u64>>,
    reordered: Seq<Option<u64>>,
    i: int,
    j: int,
)
    requires
        reordered.to_multiset() == hits.to_multiset(),
        is_closest(hits, i),
        is_closest(reordered, j),
    ensures
        hits[i] == reordered[j],
{
    assert(hits.contains(hits[i]));
    assert(reordered.contains(reordered[j]));
    vstd::seq_lib::to_multiset_contains(hits, hits[i]);
    vstd::seq_lib::to_multiset_contains(reordered, hits[i]);
    vstd::seq_lib::to_multiset_contains(hits, reordered[j]);
    vstd::seq_lib::to_multiset_contains(reordered, reordered[j]);
    assert(reordered.contains(hits[i]));
    assert(hits.contains(reordered[j]));
    let a = choose|a: int| 0 <= a < reordered.len() && reordered[a] == hits[i];
    let b = choose|b: int| 0 <= b < hits.len() && hits[b] == reordered[j];
    assert(reordered[a] is Some);
    assert(hits[b] is Some);
}

/// The index of the element that a ray reaches first, or `None` when it reaches none.
pub fn closest_element(hits: &Vec<Option<u64>>) -> (r: Option<usize>)
    ensures
        r is None <==> !any_hit(hits@),
        r matches Some(i) ==> is_closest(hits@, i as int),
{
    let mut best: Option<usize> = None;
    let mut i: usize = 0;
    while i < hits.len()
        invariant
            0 <= i <= hits.len(),
            best is None ==> forall|j: int| 0 <= j < i ==> !(#[trigger] hits@[j] is Some),
            best matches Some(b) ==> {
                &&& b < i
                &&& hits@[b as int] is Some
                &&& forall|j: int|
                    0 <= j < i && #[trigger] hits@[j] is Some ==> hits@[b as int]->0
                        <= hits@[j]->0
                &&& forall|j: int|
                    0 <= j < b && #[trigger] hits@[j] is Some ==> hits@[b as int]->0
                        < hits@[j]->0
            },
        decreases hits.len() - i,
    {
        if let Some(t) = hits[i] {
            match best {
                None => {
                    best = Some(i);
                },
                Some(b) => {
                    if let Some(tb) = hits[b] {
                        if t < tb {
                            best = Some(i);
                        }
                    }
                },
            }
        }
        i = i + 1;
    }
    proof {
        if best is None {
            assert(!any_hit(hits@));
        }
    }
    best
}

/// One step of a sequential trace: the index of the element that hands the ray on, or `None`
/// when the ray reaches no element or the element it reaches first absorbs it.
pub fn next_element(hits: &Vec<Option<u64>>, behaviours: &Vec<RayBehaviour>) -> (r: Option<usize>)
    requires
        hits.len() == behaviours.len(),
    ensures
        r matches Some(i) ==> is_closest(hits@, i as int) && !(behaviours@[i as int] is Absorb),
        r is None ==> !any_hit(hits@) || exists|i: int|
            is_closest(hits@, i) && #[trigger] behaviours@[i] is Absorb,
{
    match closest_element(hits) {
        None => None,
        Some(i) => {
            if behaviours[i].emits_ray() {
                Some(i)
            } else {
                assert(behaviours@[i as int] is Absorb);
                None
            }
        },
    }
}

} // verus!

//! Choices that the surface geometry makes between candidate distances, given as keys that
//! order as the distances do.
use vstd::prelude::*;

verus! {

/// Which of two roots keyed `k1` and `k2` counts as the hit: roots below `floor` (the
/// smallest distance that is not a self-intersection) are rejected; of those that remain the
/// one with the smaller key is taken, the first on a tie. `None` where both are rejected.
pub open spec fn valid_root_choice(k1: u64, k2: u64, floor: u64) -> Option<usize> {
    let ok1 = floor <= k1;
    let ok2 = floor <= k2;
    if !ok1 && !ok2 {
        None
    } else if ok1 && (!ok2 || k1 <= k2) {
        Some(0usize)
    } else {
        Some(1usize)
    }
}

/// Of the two roots of a sphere's intersection equation, keyed `k1` and `k2`, the one that
/// counts as the hit: its position in the pair, or `None` where both are rejected.
pub fn nearest_valid_root(k1: u64, k2: u64, floor: u64) -> (r: Option<usize>)
    ensures
        r == valid_root_choice(k1, k2, floor),
{
    if k1 < floor && k2 < floor {
        None
    } else if k1 < floor {
        Some(1)
    } else if k2 < floor {
        Some(0)
    } else if k2 < k1 {
        Some(1)
    } else {
        Some(0)
    }
}

/// The key of the root that counts as the hit, if any.
pub open spec fn hit_key(k1: u64, k2: u64, floor: u64) -> Option<u64> {
    match valid_root_choice(k1, k2, floor) {
        Some(i) => if i == 0 {
            Some(k1)
        } else {
            Some(k2)
        },
        None => None,
    }
}

/// A ray heading for a sphere from outside meets it twice ahead, first at the near side: where
/// the near root is at least the floor, the hit is the near root, in whichever order the two
/// roots come; where only the far root is, the hit is the far one.
pub proof fn lemma_near_side_hit(near: u64, far: u64, floor: u64)
    requires
        near <= far,
    ensures
        floor <= near ==> hit_key(near, far, floor) == Some(near) && hit_key(far, near, floor)
            == Some(near),
        near < floor <= far ==> hit_key(near, far, floor) == Some(far) && hit_key(
            far,
            near,
            floor,
        ) == Some(far),
        far < floor ==> hit_key(near, far, floor) is None && hit_key(far, near, floor) is None,
{
}

} // verus!

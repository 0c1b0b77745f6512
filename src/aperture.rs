//! The bookkeeping of the aperture-stop search.
//!
//! The search bisects the launch angle of a test ray. At each angle the test ray is traced and
//! its path (the indices of the elements it met, in order) is compared with the axis ray's path.
//! The angles themselves stay with the caller; this state records what the blocked paths said.
use vstd::prelude::*;

verus! {

/// `k` is the length of the longest common prefix of `a` and `b`: the paths agree on their
/// first `k` elements and part there (or one of them ends there).
pub open spec fn is_divergence(a: Seq<usize>, b: Seq<usize>, k: int) -> bool {
    &&& 0 <= k <= a.len()
    &&& k <= b.len()
    &&& forall|j: int| 0 <= j < k ==> a[j] == b[j]
    &&& (k == a.len() || k == b.len() || a[k] != b[k])
}

/// Two paths part at one place only.
pub proof fn lemma_divergence_unique(a: Seq<usize>, b: Seq<usize>, k1: int, k2: int)
    requires
        is_divergence(a, b, k1),
        is_divergence(a, b, k2),
    ensures
        k1 == k2,
{
    if k1 < k2 {
        assert(a[k1] == b[k1]);
    } else if k2 < k1 {
        assert(a[k2] == b[k2]);
    }
}

/// The number of elements at the start of two paths that they share.
pub fn common_prefix_len(a: &Vec<usize>, b: &Vec<usize>) -> (k: usize)
    ensures
        is_divergence(a@, b@, k as int),
{
    let mut i: usize = 0;
    while i < a.len() && i < b.len() && a[i] == b[i]
        invariant
            0 <= i <= a.len(),
            i <= b.len(),
            forall|j: int| 0 <= j < i ==> a@[j] == b@[j],
        decreases a.len() - i,
    {
        i = i + 1;
    }
    i
}

/// Two element paths agree when they visit the same elements in the same order.
pub fn same_path(a: &Vec<usize>, b: &Vec<usize>) -> (r: bool)
    ensures
        r == (a@ == b@),
{
    let k = common_prefix_len(a, b);
    if k == a.len() && k == b.len() {
        assert(a@ =~= b@);
        true
    } else {
        proof {
            if a@ == b@ {
                assert(a@[k as int] == b@[k as int]);
            }
        }
        false
    }
}

/// The element at which a test path leaves the axial path: the axial element that the test
/// ray did not reach, or, where the test ray went through the whole axial path, the element
/// it met beyond it.
pub open spec fn divergent_element(axial: Seq<usize>, test: Seq<usize>, k: int) -> usize {
    if k < axial.len() {
        axial[k]
    } else {
        test[k]
    }
}

/// What the blocked test rays of a search have shown so far.
pub struct ApertureSearch {
    /// The length of the path of the last blocked test ray: the number of trace steps that
    /// the marginal ray is replayed through. Zero means that no stop was found.
    pub n_surfaces_before_block: usize,
    /// The element that blocked the last blocked test ray; `None` while no test ray was blocked.
    pub blocking_index: Option<usize>,
}

impl ApertureSearch {
    /// A positive step count always comes with a blocking element.
    pub open spec fn wf(&self) -> bool {
        self.n_surfaces_before_block >= 1 ==> self.blocking_index is Some
    }

    /// The state after a test ray with path `test` was traced, against the axial path `axial`.
    pub open spec fn after_observation(self, axial: Seq<usize>, test: Seq<usize>) -> Self {
        if test == axial {
            self
        } else {
            let k = choose|k: int| is_divergence(axial, test, k);
            ApertureSearch {
                n_surfaces_before_block: test.len() as usize,
                blocking_index: Some(divergent_element(axial, test, k)),
            }
        }
    }

    /// A search before any test ray.
    pub fn new() -> (s: Self)
        ensures
            s.wf(),
            s.n_surfaces_before_block == 0,
            s.blocking_index is None,
    {
        ApertureSearch { n_surfaces_before_block: 0, blocking_index: None }
    }

    /// Records the path of a test ray. Returns `true` when it follows the axis ray's path, so
    /// that its angle is achievable and the lower bound of the bisection rises; the state is
    /// then kept. Otherwise the ray was blocked or diverted: the length of its path is
    /// recorded as the step count, and the element where its path parts from the axial one,
    /// after `k` shared elements, as the blocking one. That element, rather than the last one
    /// the test ray met, is the one whose angular acceptance is smallest once the bisection
    /// has narrowed the angle: in a system of lenses with ever smaller apertures it names the
    /// narrowest lens even where the blocked ray goes on to meet a later one.
    pub fn observe(&mut self, axial_path: &Vec<usize>, test_path: &Vec<usize>) -> (unobstructed:
        bool)
        requires
            old(self).wf(),
        ensures
            final(self).wf(),
            unobstructed == (test_path@ == axial_path@),
            *final(self) == old(self).after_observation(axial_path@, test_path@),
            unobstructed ==> *final(self) == *old(self),
            !unobstructed ==> final(self).n_surfaces_before_block == test_path.len(),
            forall|k: int|
                !unobstructed && is_divergence(axial_path@, test_path@, k)
                    ==> final(self).blocking_index == Some(
                    divergent_element(axial_path@, test_path@, k),
                ),
    {
        let k = common_prefix_len(axial_path, test_path);
        if k == axial_path.len() && k == test_path.len() {
            assert(test_path@ =~= axial_path@);
            true
        } else {
            proof {
                if test_path@ == axial_path@ {
                    assert(axial_path@[k as int] == test_path@[k as int]);
                }
                let c = choose|c: int| is_divergence(axial_path@, test_path@, c);
                lemma_divergence_unique(axial_path@, test_path@, c, k as int);
                assert forall|j: int|
                    is_divergence(axial_path@, test_path@, j) implies j == k by {
                    lemma_divergence_unique(axial_path@, test_path@, j, k as int);
                }
            }
            self.n_surfaces_before_block = test_path.len();
            if k < axial_path.len() {
                self.blocking_index = Some(axial_path[k]);
            } else {
                self.blocking_index = Some(test_path[k]);
            }
            false
        }
    }

    /// The result of the search: the blocking element and the number of trace steps to
    /// replay, or `None` when the step count is zero, so that the system has no aperture stop.
    pub fn aperture_stop(&self) -> (r: Option<(usize, usize)>)
        requires
            self.wf(),
        ensures
            r is None <==> self.n_surfaces_before_block == 0,
            self.n_surfaces_before_block >= 1 ==> r == Some(
                (self.blocking_index->0, self.n_surfaces_before_block),
            ),
    {
        if self.n_surfaces_before_block == 0 {
            None
        } else {
            match self.blocking_index {
                Some(i) => Some((i, self.n_surfaces_before_block)),
                None => None,
            }
        }
    }
}

/// Tracing the same test ray again changes nothing: a second observation of one path leaves
/// the search where the first one put it.
pub proof fn lemma_observation_idempotent(
    s: ApertureSearch,
    axial: Seq<usize>,
    test: Seq<usize>,
)
    ensures
        s.after_observation(axial, test).after_observation(axial, test) == s.after_observation(
            axial,
            test,
        ),
{
}

} // verus!

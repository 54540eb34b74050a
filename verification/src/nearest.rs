//! Nearest-parent matching: a linear scan over the parent set, comparing
//! squared distances in the perceptual space.
//!
//! Ties are broken deterministically: the parent at the lowest index with the
//! minimal distance wins, so the caller fixes the policy by fixing the order
//! of the parent list.

use vstd::prelude::*;

use crate::color::dist_sq;
use crate::color::dist_sq_spec;
use crate::color::Lab;
use crate::color::Rgb;

verus! {

/// One entry of the parent palette: its name, its RGB color as loaded, and
/// its precomputed perceptual coordinates.
pub struct Parent {
    pub name: String,
    pub color: Rgb,
    pub lab: Lab,
}

/// Every parent's perceptual coordinates are within bounds.
pub open spec fn parents_wf(s: Seq<Parent>) -> bool {
    forall|i: int| 0 <= i < s.len() ==> (#[trigger] s[i]).lab.wf()
}

/// Index `i` holds the first parent at minimal distance from `input`: no
/// parent is strictly closer, and every earlier parent is strictly farther.
pub open spec fn is_first_nearest(input: Lab, s: Seq<Parent>, i: int) -> bool {
    &&& 0 <= i < s.len()
    &&& forall|j: int|
        0 <= j < s.len() ==> dist_sq_spec(input, s[i].lab) <= dist_sq_spec(
            input,
            (#[trigger] s[j]).lab,
        )
    &&& forall|j: int|
        0 <= j < i ==> dist_sq_spec(input, (#[trigger] s[j]).lab) > dist_sq_spec(input, s[i].lab)
}

/// At most one index is the first nearest, so the match is determined by the
/// order of the parent list alone.
pub proof fn lemma_first_nearest_unique(input: Lab, s: Seq<Parent>, i: int, j: int)
    requires
        is_first_nearest(input, s, i),
        is_first_nearest(input, s, j),
    ensures
        i == j,
{
    if i < j {
        assert(dist_sq_spec(input, s[i].lab) > dist_sq_spec(input, s[j].lab));
        assert(dist_sq_spec(input, s[j].lab) >= dist_sq_spec(input, s[i].lab));
    }
    if j < i {
        assert(dist_sq_spec(input, s[j].lab) > dist_sq_spec(input, s[i].lab));
        assert(dist_sq_spec(input, s[i].lab) >= dist_sq_spec(input, s[j].lab));
    }
}

/// Returns the name and color of the parent nearest to `input_color`, or
/// `None` exactly when the parent set is empty. Among equally near parents
/// the one earliest in the list is returned.
pub fn perceptually_nearest(input_color: &Lab, parents: &Vec<Parent>) -> (r: Option<(String, Rgb)>)
    requires
        input_color.wf(),
        parents_wf(parents@),
    ensures
        r is None <==> parents@.len() == 0,
        r matches Some(p) ==> exists|i: int|
            {
                &&& #[trigger] is_first_nearest(*input_color, parents@, i)
                &&& p.0@ == parents@[i].name@
                &&& p.1 == parents@[i].color
            },
{
    if parents.len() == 0 {
        return None;
    }
    let mut best: usize = 0;
    let mut best_d: u64 = dist_sq(input_color, &parents[0].lab);
    let mut k: usize = 1;
    while k < parents.len()
        invariant
            input_color.wf(),
            parents_wf(parents@),
            1 <= k <= parents@.len(),
            0 <= best < k,
            best_d == dist_sq_spec(*input_color, parents@[best as int].lab),
            forall|j: int|
                0 <= j < k ==> best_d <= dist_sq_spec(*input_color, (#[trigger] parents@[j]).lab),
            forall|j: int|
                0 <= j < best ==> dist_sq_spec(*input_color, (#[trigger] parents@[j]).lab)
                    > best_d,
        decreases parents@.len() - k,
    {
        let d = dist_sq(input_color, &parents[k].lab);
        if d < best_d {
            best = k;
            best_d = d;
        }
        k = k + 1;
    }
    assert(is_first_nearest(*input_color, parents@, best as int));
    Some((parents[best].name.clone(), parents[best].color))
}

} // verus!

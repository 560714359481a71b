//! Choosing where a ray meets a sphere, among the two roots of its quadratic.

use crate::order::{is_before, is_within, precedes, within};
use vstd::prelude::*;

verus! {

/// The root at which a ray meets a sphere, given both roots of the intersection
/// quadratic and the bounds `[lower, upper]` on the distance: the nearer of the roots
/// that lie within the bounds, `root1` when they are equal, and none when neither
/// lies within them.
pub open spec fn chosen_root(root1: u64, root2: u64, lower: u64, upper: u64) -> Option<u64> {
    let in1 = within(root1, lower, upper);
    let in2 = within(root2, lower, upper);
    if in1 && !(in2 && precedes(root2, root1)) {
        Some(root1)
    } else if in2 {
        Some(root2)
    } else {
        None
    }
}

/// Picks the distance at which a ray meets a sphere from the two roots of the
/// quadratic `a*t*t + b*t + c = 0`, all values given as binary64 bit patterns.
/// A root is a candidate only if `lower <= root <= upper`; with two candidates the
/// nearer one is taken.
pub fn choose_root(root1: u64, root2: u64, lower: u64, upper: u64) -> (r: Option<u64>)
    ensures
        r == chosen_root(root1, root2, lower, upper),
        r is None <==> !within(root1, lower, upper) && !within(root2, lower, upper),
        r matches Some(t) ==> within(t, lower, upper) && (t == root1 || t == root2),
        r matches Some(t) ==> !precedes(root1, t) || !within(root1, lower, upper),
        r matches Some(t) ==> !precedes(root2, t) || !within(root2, lower, upper),
{
    proof {
        crate::order::lemma_precedes_asymmetric(root1, root2);
    }
    let in1 = is_within(root1, lower, upper);
    let in2 = is_within(root2, lower, upper);
    if in1 && !(in2 && is_before(root2, root1)) {
        Some(root1)
    } else if in2 {
        Some(root2)
    } else {
        None
    }
}

} // verus!

//! Aggregating the hits of every object in a scene into the closest one.

use crate::order::{
    is_before, is_nan, lemma_precedes_asymmetric, lemma_precedes_then_not_after, not_after,
    precedes,
};
use vstd::prelude::*;

verus! {

/// The object whose hit a scene reports, given for each object in order the distance
/// of its hit (a binary64 bit pattern), or none where the ray misses it. The objects
/// are folded from the first: a later hit replaces the one kept so far unless the
/// kept one is strictly nearer, so of equally near hits the last one wins.
pub open spec fn nearest(ts: Seq<Option<u64>>) -> Option<int>
    decreases ts.len(),
{
    if ts.len() == 0 {
        None
    } else {
        let kept = nearest(ts.drop_last());
        match ts.last() {
            None => kept,
            Some(t) => {
                if kept is Some && precedes(ts[kept->0]->0, t) {
                    kept
                } else {
                    Some(ts.len() - 1)
                }
            },
        }
    }
}

/// The kept object is one of the objects, and one that was hit; there is one
/// exactly when some object was hit.
pub proof fn lemma_nearest_is_a_hit(ts: Seq<Option<u64>>)
    ensures
        nearest(ts) matches Some(i) ==> 0 <= i < ts.len() && ts[i] is Some,
        nearest(ts) is None <==> forall|j: int| 0 <= j < ts.len() ==> ts[j] is None,
    decreases ts.len(),
{
    if ts.len() > 0 {
        let rest = ts.drop_last();
        lemma_nearest_is_a_hit(rest);
        assert forall|j: int| 0 <= j < rest.len() implies rest[j] == ts[j] by {}
    }
}

/// A hit strictly nearer than every other hit is the one the scene reports.
pub proof fn lemma_strictly_nearest_wins(ts: Seq<Option<u64>>, i: int)
    requires
        0 <= i < ts.len(),
        ts[i] is Some,
        forall|j: int|
            0 <= j < ts.len() && j != i && #[trigger] ts[j] is Some ==> precedes(
                ts[i]->0,
                ts[j]->0,
            ),
    ensures
        nearest(ts) == Some(i),
    decreases ts.len(),
{
    let rest = ts.drop_last();
    lemma_nearest_is_a_hit(rest);
    if i < ts.len() - 1 {
        assert forall|j: int|
            0 <= j < rest.len() && j != i && #[trigger] rest[j] is Some implies precedes(
                rest[i]->0,
                rest[j]->0,
            ) by {
            assert(rest[j] == ts[j]);
        }
        lemma_strictly_nearest_wins(rest, i);
    } else {
        if let Some(k) = nearest(rest) {
            assert(rest[k] == ts[k]);
            lemma_precedes_asymmetric(ts[i]->0, ts[k]->0);
        }
    }
}

/// Where no hit lies at a NaN distance, no hit is strictly nearer than the one the
/// scene reports, and every hit after it is strictly farther.
pub proof fn lemma_nearest_is_minimal(ts: Seq<Option<u64>>)
    requires
        forall|j: int| 0 <= j < ts.len() && #[trigger] ts[j] is Some ==> !is_nan(ts[j]->0),
    ensures
        nearest(ts) matches Some(i) ==> forall|j: int|
            0 <= j < ts.len() && #[trigger] ts[j] is Some ==> !precedes(ts[j]->0, ts[i]->0),
        nearest(ts) matches Some(i) ==> forall|j: int|
            i < j < ts.len() && #[trigger] ts[j] is Some ==> precedes(ts[i]->0, ts[j]->0),
    decreases ts.len(),
{
    if ts.len() > 0 {
        let rest = ts.drop_last();
        let last = ts.len() - 1;
        assert forall|j: int| 0 <= j < rest.len() implies rest[j] == ts[j] by {}
        lemma_nearest_is_a_hit(rest);
        lemma_nearest_is_minimal(rest);
        if let Some(t) = ts.last() {
            match nearest(rest) {
                Some(k) => {
                    let tk = ts[k]->0;
                    if precedes(tk, t) {
                        lemma_precedes_asymmetric(tk, t);
                    } else {
                        assert forall|j: int|
                            0 <= j < ts.len() && #[trigger] ts[j] is Some implies !precedes(
                                ts[j]->0,
                                t,
                            ) by {
                            if j < last {
                                assert(rest[j] == ts[j]);
                                lemma_precedes_then_not_after(ts[j]->0, t, tk);
                            } else {
                                lemma_precedes_asymmetric(t, t);
                            }
                        }
                    }
                },
                None => {
                    assert forall|j: int|
                        0 <= j < ts.len() && #[trigger] ts[j] is Some implies !precedes(
                            ts[j]->0,
                            t,
                        ) by {
                        if j < last {
                            assert(rest[j] == ts[j]);
                        } else {
                            lemma_precedes_asymmetric(t, t);
                        }
                    }
                },
            }
        }
    }
}

/// The index of the object whose hit a scene reports, given for each object the
/// distance of its hit as a binary64 bit pattern, or none where the ray misses it.
pub fn closest_hit(ts: &Vec<Option<u64>>) -> (r: Option<usize>)
    ensures
        r matches Some(i) ==> nearest(ts@) == Some(i as int),
        r is None ==> nearest(ts@) is None,
{
    let mut kept: Option<usize> = None;
    let mut i: usize = 0;
    while i < ts.len()
        invariant
            i <= ts.len(),
            kept matches Some(k) ==> nearest(ts@.take(i as int)) == Some(k as int),
            kept is None ==> nearest(ts@.take(i as int)) is None,
        decreases ts.len() - i,
    {
        let prefix = Ghost(ts@.take(i as int));
        assert(ts@.take(i as int + 1).drop_last() =~= prefix@);
        proof {
            lemma_nearest_is_a_hit(prefix@);
        }
        if let Some(t) = ts[i] {
            kept = match kept {
                Some(k) => {
                    assert(prefix@[k as int] == ts@[k as int]);
                    let tk = ts[k].unwrap();
                    if is_before(tk, t) {
                        Some(k)
                    } else {
                        Some(i)
                    }
                },
                None => Some(i),
            };
        }
        i = i + 1;
    }
    assert(ts@.take(ts.len() as int) =~= ts@);
    kept
}

} // verus!

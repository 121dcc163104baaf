//! The suggestion helper: given per-candidate similarity scores against a
//! mistyped name, propose the best-scoring candidate when it clears a fixed
//! acceptance threshold.
//!
//! Scores arrive as unsigned integers whose order mirrors the similarity
//! order the caller computed (a normalized edit-similarity measure); the
//! threshold arrives in the same encoding. This module owns the selection
//! rule only: the single highest-scoring candidate strictly above the
//! threshold wins, and on an exact tie the earliest such candidate wins.

use vstd::prelude::*;

verus! {

/// Candidate `i` is the one the selection rule picks: its score clears the
/// threshold, no candidate scores higher, and every earlier candidate with a
/// clearing score scores strictly lower.
pub open spec fn is_chosen(scores: Seq<u64>, threshold: u64, i: int) -> bool {
    &&& 0 <= i < scores.len()
    &&& scores[i] > threshold
    &&& (forall|k: int| 0 <= k < scores.len() && #[trigger] scores[k] > threshold ==> scores[k]
        <= scores[i])
    &&& (forall|k: int| 0 <= k < i && #[trigger] scores[k] > threshold ==> scores[k] < scores[i])
}

/// Picks the candidate the scores single out, or nothing when no score
/// strictly clears the threshold. The chosen candidate is the one
/// `is_chosen` describes: highest score wins, first of an exact tie wins.
pub fn did_you_mean(candidates: &Vec<String>, scores: &Vec<u64>, threshold: u64) -> (r: Option<
    String,
>)
    requires
        candidates@.len() == scores@.len(),
    ensures
        r is None <==> (forall|i: int| 0 <= i < scores@.len() ==> #[trigger] scores@[i]
            <= threshold),
        r is Some ==> exists|i: int| is_chosen(scores@, threshold, i) && r->0@ == candidates@[i]@,
{
    let n = candidates.len();
    let mut best: Option<(u64, usize)> = None;
    let mut i: usize = 0;
    while i < n
        invariant
            n == candidates@.len(),
            n == scores@.len(),
            0 <= i <= n,
            best is None <==> (forall|k: int| 0 <= k < i ==> #[trigger] scores@[k] <= threshold),
            best matches Some((s, idx)) ==> {
                &&& 0 <= idx < i
                &&& s == scores@[idx as int]
                &&& s > threshold
                &&& (forall|k: int| 0 <= k < i && #[trigger] scores@[k] > threshold ==> scores@[k]
                    <= s)
                &&& (forall|k: int| 0 <= k < idx && #[trigger] scores@[k] > threshold ==> scores@[k]
                    < s)
            },
        decreases n - i,
    {
        let s = scores[i];
        let beat = match best {
            None => true,
            Some((b, _)) => b < s,
        };
        if s > threshold && beat {
            best = Some((s, i));
        }
        i = i + 1;
    }
    match best {
        None => None,
        Some((_, idx)) => {
            proof {
                assert(is_chosen(scores@, threshold, idx as int));
            }
            let name = String::from_str(candidates[idx].as_str());
            Some(name)
        },
    }
}

} // verus!

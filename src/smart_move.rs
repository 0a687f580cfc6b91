//! Choice of the snap offset for axis-snapped movement.
//!
//! The caller gathers the positive candidate offsets along the movement
//! axis and sorts them ascending; a step index then picks one of them.
use vstd::prelude::*;

verus! {

pub open spec fn step_choice(len: int, step: int) -> int {
    if step < len - 1 {
        step
    } else {
        len - 1
    }
}

/// Position, among `candidate_count` sorted candidates, of the offset that
/// step `step_index` moves to: the step itself, or the last candidate where
/// the step goes past the end. `None` where there is no candidate.
pub fn smart_move_index(candidate_count: usize, step_index: usize) -> (r: Option<usize>)
    ensures
        candidate_count == 0 <==> r.is_none(),
        candidate_count > 0 ==> r == Some(step_choice(candidate_count as int, step_index as int) as usize),
        r matches Some(i) ==> i < candidate_count,
{
    if candidate_count == 0 {
        None
    } else if step_index < candidate_count - 1 {
        Some(step_index)
    } else {
        Some(candidate_count - 1)
    }
}

pub open spec fn sorted_ascending(s: Seq<int>) -> bool {
    forall|i: int, j: int| 0 <= i <= j < s.len() ==> s[i] <= s[j]
}

/// Over a list of candidate offsets sorted ascending, a larger step index
/// never picks a smaller offset.
pub proof fn lemma_smart_move_monotone(candidates: Seq<int>, step_a: int, step_b: int)
    requires
        sorted_ascending(candidates),
        candidates.len() > 0,
        0 <= step_a <= step_b,
    ensures
        0 <= step_choice(candidates.len() as int, step_a) <= step_choice(
            candidates.len() as int,
            step_b,
        ) < candidates.len(),
        candidates[step_choice(candidates.len() as int, step_a)] <= candidates[step_choice(
            candidates.len() as int,
            step_b,
        )],
{
}

} // verus!

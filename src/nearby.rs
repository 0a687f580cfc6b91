//! Grouping of touching face pairs by the origin's face, for the proximity
//! adjacency graph.
use vstd::prelude::*;

verus! {

/// Face `origin_face` of the origin box faces face `candidate_face` of
/// candidate `candidate`.
#[derive(Clone, Copy, Debug, PartialEq, Eq, Structural)]
pub struct Touch {
    pub origin_face: u8,
    pub candidate: usize,
    pub candidate_face: u8,
}

/// The pairs `(candidate, candidate_face)` of `touching` on origin face
/// `face`, in the order of `touching`.
pub open spec fn bucket_spec(touching: Seq<Touch>, face: int) -> Seq<(usize, u8)>
    decreases touching.len(),
{
    if touching.len() == 0 {
        seq![]
    } else {
        let last = touching.last();
        let rest = bucket_spec(touching.drop_last(), face);
        if last.origin_face as int == face {
            rest.push((last.candidate, last.candidate_face))
        } else {
            rest
        }
    }
}

fn bucket(touching: &Vec<Touch>, face: u8) -> (r: Vec<(usize, u8)>)
    ensures
        r@ == bucket_spec(touching@, face as int),
{
    let mut r: Vec<(usize, u8)> = Vec::new();
    let mut k: usize = 0;
    while k < touching.len()
        invariant
            k <= touching@.len(),
            r@ == bucket_spec(touching@.take(k as int), face as int),
        decreases touching@.len() - k,
    {
        assert(touching@.take(k + 1).drop_last() == touching@.take(k as int));
        let t = touching[k];
        if t.origin_face == face {
            r.push((t.candidate, t.candidate_face));
        }
        k = k + 1;
    }
    assert(touching@.take(touching@.len() as int) == touching@);
    r
}

/// The proximity graph of the origin box: entry `i` lists, in the order of
/// `touching`, each candidate and candidate face that touches origin face `i`.
pub fn get_nearby(touching: &Vec<Touch>) -> (r: Vec<Vec<(usize, u8)>>)
    ensures
        r@.len() == 6,
        forall|i: int| 0 <= i < 6 ==> (#[trigger] r@[i])@ == bucket_spec(touching@, i),
{
    let mut r: Vec<Vec<(usize, u8)>> = Vec::new();
    let mut i: u8 = 0;
    while i < 6
        invariant
            i <= 6,
            r@.len() == i,
            forall|j: int| 0 <= j < i ==> (#[trigger] r@[j])@ == bucket_spec(touching@, j),
        decreases 6 - i,
    {
        r.push(bucket(touching, i));
        i = i + 1;
    }
    r
}

} // verus!

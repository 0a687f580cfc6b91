//! The feature pairs that the touch-distance solver evaluates.
//!
//! Each box has 26 features: its 6 faces, 8 vertices and 12 edges. For an
//! ordered pair (feature of the moving box, feature of the other box) the
//! solver tests the pair moving along the direction, and, where the two
//! features are of different kinds, the reversed pair moving against it.
use vstd::prelude::*;

verus! {

/// The kind of a box feature.
#[derive(Clone, Copy, Debug, PartialEq, Eq, Structural)]
pub enum FeatureKind {
    Face,
    Vertex,
    Edge,
}

/// A feature of a box: its kind and its number among features of that kind.
#[derive(Clone, Copy, Debug, PartialEq, Eq, Structural)]
pub struct Feature {
    pub kind: FeatureKind,
    pub index: u8,
}

/// Number of features of a box.
pub const FEATURE_COUNT: usize = 26;

/// Feature `k` of a box: faces first, then vertices, then edges.
pub open spec fn feature_at(k: int) -> Feature {
    if k < 6 {
        Feature { kind: FeatureKind::Face, index: k as u8 }
    } else if k < 14 {
        Feature { kind: FeatureKind::Vertex, index: (k - 6) as u8 }
    } else {
        Feature { kind: FeatureKind::Edge, index: (k - 14) as u8 }
    }
}

/// All features of a box, in the order of `feature_at`.
pub fn all_things() -> (r: Vec<Feature>)
    ensures
        r@.len() == FEATURE_COUNT,
        forall|k: int| 0 <= k < r@.len() ==> #[trigger] r@[k] == feature_at(k),
{
    let mut r: Vec<Feature> = Vec::new();
    let mut i: u8 = 0;
    while i < 6
        invariant
            i <= 6,
            r@.len() == i,
            forall|k: int| 0 <= k < r@.len() ==> #[trigger] r@[k] == feature_at(k),
        decreases 6 - i,
    {
        r.push(Feature { kind: FeatureKind::Face, index: i });
        i = i + 1;
    }
    let mut i: u8 = 0;
    while i < 8
        invariant
            i <= 8,
            r@.len() == 6 + i,
            forall|k: int| 0 <= k < r@.len() ==> #[trigger] r@[k] == feature_at(k),
        decreases 8 - i,
    {
        r.push(Feature { kind: FeatureKind::Vertex, index: i });
        i = i + 1;
    }
    let mut i: u8 = 0;
    while i < 12
        invariant
            i <= 12,
            r@.len() == 14 + i,
            forall|k: int| 0 <= k < r@.len() ==> #[trigger] r@[k] == feature_at(k),
        decreases 12 - i,
    {
        r.push(Feature { kind: FeatureKind::Edge, index: i });
        i = i + 1;
    }
    r
}

/// How a moving feature is brought against a fixed one.
#[derive(Clone, Copy, Debug, PartialEq, Eq, Structural)]
pub enum ContactTest {
    /// A ray from the vertex along the direction, against the face's rectangle.
    VertexToPlane,
    /// The moving edge swept along the direction, against the other edge.
    EdgeToEdge,
}

pub open spec fn contact_test_spec(moving: FeatureKind, fixed: FeatureKind) -> Option<ContactTest> {
    if moving == FeatureKind::Vertex && fixed == FeatureKind::Face {
        Some(ContactTest::VertexToPlane)
    } else if moving == FeatureKind::Edge && fixed == FeatureKind::Edge {
        Some(ContactTest::EdgeToEdge)
    } else {
        None
    }
}

/// The test for a moving feature of kind `moving` against a fixed feature of
/// kind `fixed`; the other combinations never make contact.
pub fn contact_test(moving: FeatureKind, fixed: FeatureKind) -> (r: Option<ContactTest>)
    ensures
        r == contact_test_spec(moving, fixed),
{
    match (moving, fixed) {
        (FeatureKind::Vertex, FeatureKind::Face) => Some(ContactTest::VertexToPlane),
        (FeatureKind::Edge, FeatureKind::Edge) => Some(ContactTest::EdgeToEdge),
        _ => None,
    }
}

/// The tests for the pair (`a` of the moving box, `b` of the other box): the
/// first moves `a` along the direction onto `b`, the second moves `b` against
/// the direction onto `a` and is made only where the kinds differ.
pub fn touch_checks(a: FeatureKind, b: FeatureKind) -> (r: (Option<ContactTest>, Option<ContactTest>))
    ensures
        r.0 == contact_test_spec(a, b),
        r.1 == (if a != b {
            contact_test_spec(b, a)
        } else {
            None
        }),
{
    let forward = contact_test(a, b);
    let reverse = if a != b {
        contact_test(b, a)
    } else {
        None
    };
    (forward, reverse)
}

} // verus!

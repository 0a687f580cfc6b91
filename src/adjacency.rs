//! Neighbours of a parametric hull segment and their second-order
//! ("corner") composition.
use vstd::prelude::*;

verus! {

/// Face of a hull's box that carries its front seam.
pub const FRONT_FACE: u8 = 5;

/// Face of a hull's box that carries its back seam.
pub const BACK_FACE: u8 = 2;

/// Face of a hull's box that carries its top seam.
pub const TOP_FACE: u8 = 1;

/// Face of a hull's box that carries its bottom seam.
pub const BOTTOM_FACE: u8 = 4;

/// How a neighbouring hull is mirrored relative to the origin across a seam.
#[derive(Clone, Copy, Debug, PartialEq, Eq, Structural)]
pub struct FlipFlags {
    /// Front and back of the neighbour are swapped.
    pub horizontal: bool,
    /// Top and bottom of the neighbour are swapped.
    pub vertical: bool,
}

impl FlipFlags {
    /// Flip flags of a two-hop path: each flag is the exclusive or of the
    /// flags of the two hops.
    pub fn combine(self, next: FlipFlags) -> (r: FlipFlags)
        ensures
            r.horizontal == (self.horizontal != next.horizontal),
            r.vertical == (self.vertical != next.vertical),
    {
        FlipFlags {
            horizontal: self.horizontal != next.horizontal,
            vertical: self.vertical != next.vertical,
        }
    }
}

/// A neighbour: its position in the candidate list and its flip flags.
#[derive(Clone, Copy, Debug, PartialEq, Eq, Structural)]
pub struct Adjacent {
    pub index: usize,
    pub flips: FlipFlags,
}

/// The first-order neighbours of one hull, one per seam face.
#[derive(Clone, Copy, Debug, PartialEq, Eq, Structural)]
pub struct FaceNeighbours {
    pub front: Option<Adjacent>,
    pub back: Option<Adjacent>,
    pub top: Option<Adjacent>,
    pub bottom: Option<Adjacent>,
}

/// The eight directions in which a hull can have a neighbour.
#[derive(Clone, Copy, Debug, PartialEq, Eq, Structural)]
pub enum AdjHullSide {
    Front,
    FrontTop,
    FrontBottom,
    Top,
    Bottom,
    Back,
    BackTop,
    BackBottom,
}

/// All eight directions, in declaration order.
pub fn all_sides() -> (r: Vec<AdjHullSide>)
    ensures
        r@ == seq![
            AdjHullSide::Front,
            AdjHullSide::FrontTop,
            AdjHullSide::FrontBottom,
            AdjHullSide::Top,
            AdjHullSide::Bottom,
            AdjHullSide::Back,
            AdjHullSide::BackTop,
            AdjHullSide::BackBottom,
        ],
{
    vec![
        AdjHullSide::Front,
        AdjHullSide::FrontTop,
        AdjHullSide::FrontBottom,
        AdjHullSide::Top,
        AdjHullSide::Bottom,
        AdjHullSide::Back,
        AdjHullSide::BackTop,
        AdjHullSide::BackBottom,
    ]
}

pub open spec fn index_below(a: Option<Adjacent>, n: int) -> bool {
    match a {
        Some(x) => x.index < n,
        None => true,
    }
}

impl FaceNeighbours {
    /// No neighbour on any face.
    pub fn empty() -> (r: FaceNeighbours)
        ensures
            r.front.is_none() && r.back.is_none() && r.top.is_none() && r.bottom.is_none(),
    {
        FaceNeighbours { front: None, back: None, top: None, bottom: None }
    }

    /// Every neighbour refers to one of `n` candidates.
    pub open spec fn indices_below(&self, n: int) -> bool {
        index_below(self.front, n) && index_below(self.back, n) && index_below(self.top, n)
            && index_below(self.bottom, n)
    }

    pub open spec fn face_spec(&self, face: int) -> Option<Adjacent> {
        if face == FRONT_FACE as int {
            self.front
        } else if face == BACK_FACE as int {
            self.back
        } else if face == TOP_FACE as int {
            self.top
        } else if face == BOTTOM_FACE as int {
            self.bottom
        } else {
            None
        }
    }

    /// The neighbour on box face `face`; faces 0 and 3 carry none.
    pub fn get(&self, face: u8) -> (r: Option<Adjacent>)
        ensures
            r == self.face_spec(face as int),
    {
        if face == FRONT_FACE {
            self.front
        } else if face == BACK_FACE {
            self.back
        } else if face == TOP_FACE {
            self.top
        } else if face == BOTTOM_FACE {
            self.bottom
        } else {
            None
        }
    }

    /// Records `a` as the neighbour on seam face `face`.
    pub fn insert(&mut self, face: u8, a: Adjacent)
        requires
            face == FRONT_FACE || face == BACK_FACE || face == TOP_FACE || face == BOTTOM_FACE,
        ensures
            final(self).face_spec(face as int) == Some(a),
            forall|f: int| f != face ==> #[trigger] final(self).face_spec(f) == old(self).face_spec(f),
    {
        if face == FRONT_FACE {
            self.front = Some(a);
        } else if face == BACK_FACE {
            self.back = Some(a);
        } else if face == TOP_FACE {
            self.top = Some(a);
        } else {
            self.bottom = Some(a);
        }
    }

    /// Number of faces that carry a neighbour.
    pub fn len(&self) -> (r: usize)
        ensures
            r == (if self.front.is_some() { 1int } else { 0 }) + (if self.back.is_some() { 1int } else { 0 })
                + (if self.top.is_some() { 1int } else { 0 }) + (if self.bottom.is_some() { 1int } else { 0 }),
    {
        let mut n: usize = 0;
        if self.front.is_some() {
            n = n + 1;
        }
        if self.back.is_some() {
            n = n + 1;
        }
        if self.top.is_some() {
            n = n + 1;
        }
        if self.bottom.is_some() {
            n = n + 1;
        }
        n
    }
}

/// The neighbours of one hull in all eight directions.
#[derive(Clone, Copy, Debug, PartialEq, Eq, Structural)]
pub struct CornerNeighbours {
    pub front: Option<Adjacent>,
    pub front_top: Option<Adjacent>,
    pub front_bottom: Option<Adjacent>,
    pub top: Option<Adjacent>,
    pub bottom: Option<Adjacent>,
    pub back: Option<Adjacent>,
    pub back_top: Option<Adjacent>,
    pub back_bottom: Option<Adjacent>,
}

impl CornerNeighbours {
    pub open spec fn side_spec(&self, side: AdjHullSide) -> Option<Adjacent> {
        match side {
            AdjHullSide::Front => self.front,
            AdjHullSide::FrontTop => self.front_top,
            AdjHullSide::FrontBottom => self.front_bottom,
            AdjHullSide::Top => self.top,
            AdjHullSide::Bottom => self.bottom,
            AdjHullSide::Back => self.back,
            AdjHullSide::BackTop => self.back_top,
            AdjHullSide::BackBottom => self.back_bottom,
        }
    }

    /// The neighbour in direction `side`, if any.
    pub fn get(&self, side: AdjHullSide) -> (r: Option<Adjacent>)
        ensures
            r == self.side_spec(side),
    {
        match side {
            AdjHullSide::Front => self.front,
            AdjHullSide::FrontTop => self.front_top,
            AdjHullSide::FrontBottom => self.front_bottom,
            AdjHullSide::Top => self.top,
            AdjHullSide::Bottom => self.bottom,
            AdjHullSide::Back => self.back,
            AdjHullSide::BackTop => self.back_top,
            AdjHullSide::BackBottom => self.back_bottom,
        }
    }
}

/// The neighbour reached by a first hop `first` and then a second hop
/// `second` from the first hop's part.
pub open spec fn hop_spec(first: Adjacent, second: Option<Adjacent>) -> Option<Adjacent> {
    match second {
        Some(y) => Some(
            Adjacent {
                index: y.index,
                flips: FlipFlags {
                    horizontal: first.flips.horizontal != y.flips.horizontal,
                    vertical: first.flips.vertical != y.flips.vertical,
                },
            },
        ),
        None => None,
    }
}

/// Corner neighbour through `first` (if present) whose own face `face`
/// carries the second hop; `detected[i]` holds the neighbours of candidate `i`.
pub open spec fn corner_spec(first: Option<Adjacent>, detected: Seq<FaceNeighbours>, face: int) -> Option<
    Adjacent,
> {
    match first {
        Some(x) => hop_spec(x, detected[x.index as int].face_spec(face)),
        None => None,
    }
}

fn hop(first: Adjacent, detected: &Vec<FaceNeighbours>, face: u8) -> (r: Option<Adjacent>)
    requires
        first.index < detected@.len(),
    ensures
        r == hop_spec(first, detected@[first.index as int].face_spec(face as int)),
{
    match detected[first.index].get(face) {
        Some(y) => Some(Adjacent { index: y.index, flips: first.flips.combine(y.flips) }),
        None => None,
    }
}

/// Neighbours of a hull in all eight directions, from the first-order
/// neighbours `origin` of that hull and `detected[i]` of each candidate `i`.
/// Front, back, top and bottom are `origin`'s own; a corner such as
/// front-top is the top neighbour of the front neighbour, with the flip flags
/// of the two hops combined by exclusive or.
pub fn with_corner_adjacent_adjustable_hulls(
    origin: &FaceNeighbours,
    detected: &Vec<FaceNeighbours>,
) -> (r: CornerNeighbours)
    requires
        origin.indices_below(detected@.len() as int),
    ensures
        r.front == origin.front,
        r.back == origin.back,
        r.top == origin.top,
        r.bottom == origin.bottom,
        r.front_top == corner_spec(origin.front, detected@, TOP_FACE as int),
        r.front_bottom == corner_spec(origin.front, detected@, BOTTOM_FACE as int),
        r.back_top == corner_spec(origin.back, detected@, TOP_FACE as int),
        r.back_bottom == corner_spec(origin.back, detected@, BOTTOM_FACE as int),
{
    let mut r = CornerNeighbours {
        front: None,
        front_top: None,
        front_bottom: None,
        top: origin.top,
        bottom: origin.bottom,
        back: None,
        back_top: None,
        back_bottom: None,
    };
    if let Some(x) = origin.front {
        r.front = Some(x);
        r.front_top = hop(x, detected, TOP_FACE);
        r.front_bottom = hop(x, detected, BOTTOM_FACE);
    }
    if let Some(x) = origin.back {
        r.back = Some(x);
        r.back_top = hop(x, detected, TOP_FACE);
        r.back_bottom = hop(x, detected, BOTTOM_FACE);
    }
    r
}

} // verus!

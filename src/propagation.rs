//! Propagation of an edited hull attribute to the neighbouring hull
//! segments, so that the cross-section shared across each seam stays the
//! same on both sides.
//!
//! The edits are computed as a plan over symbolic amounts; the caller
//! evaluates the amounts on its own numbers. `HullModel` and
//! `apply_edits_spec` give the meaning of a plan in exact arithmetic.
use vstd::prelude::*;
use crate::adjacency::{all_sides, AdjHullSide, CornerNeighbours, FlipFlags};

verus! {

/// The editable attributes of a part.
#[derive(Clone, Copy, Debug, PartialEq, Eq, Structural)]
pub enum PartAttributes {
    Id,
    IgnorePhysics,
    PositionX,
    PositionY,
    PositionZ,
    RotationX,
    RotationY,
    RotationZ,
    ScaleX,
    ScaleY,
    ScaleZ,
    Color,
    Armor,
    Length,
    Height,
    FrontWidth,
    BackWidth,
    FrontSpread,
    BackSpread,
    TopRoundness,
    BottomRoundness,
    HeightScale,
    HeightOffset,
    ManualControl,
    Elevator,
}

pub open spec fn is_number_spec(a: PartAttributes) -> bool {
    !(a == PartAttributes::IgnorePhysics || a == PartAttributes::Color || a
        == PartAttributes::ManualControl)
}

pub open spec fn is_hull_spec(a: PartAttributes) -> bool {
    match a {
        PartAttributes::Length | PartAttributes::Height | PartAttributes::FrontWidth
        | PartAttributes::BackWidth | PartAttributes::FrontSpread | PartAttributes::BackSpread
        | PartAttributes::TopRoundness | PartAttributes::BottomRoundness
        | PartAttributes::HeightScale | PartAttributes::HeightOffset => true,
        _ => false,
    }
}

impl PartAttributes {
    /// Whether the attribute holds a number (all but the flags and the colour).
    pub fn is_number(&self) -> (r: bool)
        ensures
            r == is_number_spec(*self),
    {
        match self {
            PartAttributes::IgnorePhysics => false,
            PartAttributes::Color => false,
            PartAttributes::ManualControl => false,
            _ => true,
        }
    }

    /// Whether the attribute belongs to a parametric hull segment.
    pub fn is_adjustable_hull(&self) -> (r: bool)
        ensures
            r == is_hull_spec(*self),
    {
        match self {
            PartAttributes::Length => true,
            PartAttributes::Height => true,
            PartAttributes::FrontWidth => true,
            PartAttributes::BackWidth => true,
            PartAttributes::FrontSpread => true,
            PartAttributes::BackSpread => true,
            PartAttributes::TopRoundness => true,
            PartAttributes::BottomRoundness => true,
            PartAttributes::HeightScale => true,
            PartAttributes::HeightOffset => true,
            _ => false,
        }
    }
}

/// An amount in terms of the new value `v` and the origin hull after its
/// own edit.
#[derive(Clone, Copy, Debug, PartialEq, Eq, Structural)]
pub enum Amount {
    Value,
    ValuePlusFrontSpread,
    ValuePlusFrontWidth,
    ValuePlusBackSpread,
    ValuePlusBackWidth,
}

/// One write to a neighbouring hull.
#[derive(Clone, Copy, Debug, PartialEq, Eq, Structural)]
pub enum HullEdit {
    /// Sets one width of one end: the bottom width (`bottom`) or the top
    /// total width, width plus spread (`!bottom`), of the back end (`back`) or
    /// the front end, keeping the other width of that end.
    Width { back: bool, bottom: bool, amount: Amount },
    TopRoundness,
    BottomRoundness,
    Height,
}

/// A hull segment's attributes as exact numbers.
pub struct HullModel {
    pub length: int,
    pub height: int,
    pub front_width: int,
    pub back_width: int,
    pub front_spread: int,
    pub back_spread: int,
    pub top_roundness: int,
    pub bottom_roundness: int,
    pub height_scale: int,
    pub height_offset: int,
}

/// `h` with attribute `a` set to `v`; attributes of no hull leave it as is.
pub open spec fn set_attribute_spec(h: HullModel, a: PartAttributes, v: int) -> HullModel {
    match a {
        PartAttributes::Length => HullModel { length: v, ..h },
        PartAttributes::Height => HullModel { height: v, ..h },
        PartAttributes::FrontWidth => HullModel { front_width: v, ..h },
        PartAttributes::BackWidth => HullModel { back_width: v, ..h },
        PartAttributes::FrontSpread => HullModel { front_spread: v, ..h },
        PartAttributes::BackSpread => HullModel { back_spread: v, ..h },
        PartAttributes::TopRoundness => HullModel { top_roundness: v, ..h },
        PartAttributes::BottomRoundness => HullModel { bottom_roundness: v, ..h },
        PartAttributes::HeightScale => HullModel { height_scale: v, ..h },
        PartAttributes::HeightOffset => HullModel { height_offset: v, ..h },
        _ => h,
    }
}

/// Sets the bottom width (`bottom`) or the top total width (`!bottom`) of
/// one end of `h` to `v`, keeping the other width of that end.
pub open spec fn set_width_spec(h: HullModel, back: bool, bottom: bool, v: int) -> HullModel {
    if back {
        if bottom {
            HullModel { back_spread: (h.back_spread + h.back_width) - v, back_width: v, ..h }
        } else {
            HullModel { back_spread: v - h.back_width, ..h }
        }
    } else {
        if bottom {
            HullModel { front_spread: (h.front_spread + h.front_width) - v, front_width: v, ..h }
        } else {
            HullModel { front_spread: v - h.front_width, ..h }
        }
    }
}

pub open spec fn amount_spec(q: Amount, v: int, origin: HullModel) -> int {
    match q {
        Amount::Value => v,
        Amount::ValuePlusFrontSpread => v + origin.front_spread,
        Amount::ValuePlusFrontWidth => v + origin.front_width,
        Amount::ValuePlusBackSpread => v + origin.back_spread,
        Amount::ValuePlusBackWidth => v + origin.back_width,
    }
}

pub open spec fn apply_edit_spec(h: HullModel, e: HullEdit, v: int, origin: HullModel) -> HullModel {
    match e {
        HullEdit::Width { back, bottom, amount } => set_width_spec(
            h,
            back,
            bottom,
            amount_spec(amount, v, origin),
        ),
        HullEdit::TopRoundness => HullModel { top_roundness: v, ..h },
        HullEdit::BottomRoundness => HullModel { bottom_roundness: v, ..h },
        HullEdit::Height => HullModel { height: v, ..h },
    }
}

/// `h` after the edits `es`, in order.
pub open spec fn apply_edits_spec(h: HullModel, es: Seq<HullEdit>, v: int, origin: HullModel) -> HullModel
    decreases es.len(),
{
    if es.len() == 0 {
        h
    } else {
        apply_edits_spec(apply_edit_spec(h, es[0], v, origin), es.drop_first(), v, origin)
    }
}

pub open spec fn width(back: bool, bottom: bool, amount: Amount) -> HullEdit {
    HullEdit::Width { back, bottom, amount }
}

pub open spec fn changes_top(a: PartAttributes) -> bool {
    a == PartAttributes::FrontWidth || a == PartAttributes::BackWidth || a
        == PartAttributes::FrontSpread || a == PartAttributes::BackSpread || a
        == PartAttributes::TopRoundness
}

/// The edits that an edit of attribute `a` on the origin makes to its
/// neighbour in direction `side`, mirrored as `f` says. Width and spread
/// edits cross front and back seams and the diagonal corners as widths;
/// roundness and height cross the front and back seams; top and bottom
/// neighbours take the widths of the face they share.
pub open spec fn edits_spec(a: PartAttributes, side: AdjHullSide, f: FlipFlags) -> Seq<HullEdit> {
    let h = f.horizontal;
    let vf = f.vertical;
    match side {
        AdjHullSide::Front => match a {
            PartAttributes::FrontWidth => seq![
                width(!h, !vf, Amount::Value),
                width(!h, vf, Amount::ValuePlusFrontSpread),
            ],
            PartAttributes::FrontSpread => seq![width(!h, vf, Amount::ValuePlusFrontWidth)],
            PartAttributes::TopRoundness | PartAttributes::BottomRoundness => if changes_top(a)
                != vf {
                seq![HullEdit::TopRoundness]
            } else {
                seq![HullEdit::BottomRoundness]
            },
            PartAttributes::Height => seq![HullEdit::Height],
            _ => seq![],
        },
        AdjHullSide::FrontTop => match a {
            PartAttributes::FrontWidth => seq![width(!h, !vf, Amount::ValuePlusFrontSpread)],
            PartAttributes::FrontSpread => seq![width(!h, !vf, Amount::ValuePlusFrontWidth)],
            _ => seq![],
        },
        AdjHullSide::FrontBottom => match a {
            PartAttributes::FrontWidth => seq![width(!h, vf, Amount::Value)],
            _ => seq![],
        },
        AdjHullSide::Back => match a {
            PartAttributes::BackWidth => seq![
                width(h, !vf, Amount::Value),
                width(h, vf, Amount::ValuePlusBackSpread),
            ],
            PartAttributes::BackSpread => seq![width(h, vf, Amount::ValuePlusBackWidth)],
            PartAttributes::TopRoundness | PartAttributes::BottomRoundness => if changes_top(a)
                != vf {
                seq![HullEdit::TopRoundness]
            } else {
                seq![HullEdit::BottomRoundness]
            },
            PartAttributes::Height => seq![HullEdit::Height],
            _ => seq![],
        },
        AdjHullSide::BackTop => match a {
            PartAttributes::BackWidth => seq![width(h, !vf, Amount::ValuePlusBackSpread)],
            PartAttributes::BackSpread => seq![width(h, !vf, Amount::ValuePlusBackWidth)],
            _ => seq![],
        },
        AdjHullSide::BackBottom => match a {
            PartAttributes::BackWidth => seq![width(h, vf, Amount::Value)],
            _ => seq![],
        },
        AdjHullSide::Top => match a {
            PartAttributes::FrontSpread => seq![width(h, !vf, Amount::ValuePlusFrontWidth)],
            PartAttributes::BackSpread => seq![width(!h, !vf, Amount::ValuePlusBackWidth)],
            PartAttributes::FrontWidth => seq![width(h, !vf, Amount::ValuePlusFrontSpread)],
            PartAttributes::BackWidth => seq![width(!h, !vf, Amount::ValuePlusBackSpread)],
            _ => seq![],
        },
        AdjHullSide::Bottom => match a {
            PartAttributes::FrontWidth => seq![width(h, vf, Amount::Value)],
            PartAttributes::BackWidth => seq![width(!h, vf, Amount::Value)],
            _ => seq![],
        },
    }
}

fn width_edit(back: bool, bottom: bool, amount: Amount) -> (r: HullEdit)
    ensures
        r == width(back, bottom, amount),
{
    HullEdit::Width { back, bottom, amount }
}

fn roundness_edit(a: PartAttributes, vertical: bool) -> (r: Vec<HullEdit>)
    requires
        a == PartAttributes::TopRoundness || a == PartAttributes::BottomRoundness,
    ensures
        r@ == (if changes_top(a) != vertical {
            seq![HullEdit::TopRoundness]
        } else {
            seq![HullEdit::BottomRoundness]
        }),
{
    let top = a == PartAttributes::TopRoundness;
    if top != vertical {
        vec![HullEdit::TopRoundness]
    } else {
        vec![HullEdit::BottomRoundness]
    }
}

/// The edits to make to the neighbour in direction `side` with flip flags
/// `f` after attribute `a` of the origin was set to a new value.
pub fn propagation_edits(a: PartAttributes, side: AdjHullSide, f: FlipFlags) -> (r: Vec<HullEdit>)
    ensures
        r@ == edits_spec(a, side, f),
{
    let h = f.horizontal;
    let vf = f.vertical;
    match side {
        AdjHullSide::Front => match a {
            PartAttributes::FrontWidth => vec![
                width_edit(!h, !vf, Amount::Value),
                width_edit(!h, vf, Amount::ValuePlusFrontSpread),
            ],
            PartAttributes::FrontSpread => vec![width_edit(!h, vf, Amount::ValuePlusFrontWidth)],
            PartAttributes::TopRoundness | PartAttributes::BottomRoundness => roundness_edit(a, vf),
            PartAttributes::Height => vec![HullEdit::Height],
            _ => Vec::new(),
        },
        AdjHullSide::FrontTop => match a {
            PartAttributes::FrontWidth => vec![width_edit(!h, !vf, Amount::ValuePlusFrontSpread)],
            PartAttributes::FrontSpread => vec![width_edit(!h, !vf, Amount::ValuePlusFrontWidth)],
            _ => Vec::new(),
        },
        AdjHullSide::FrontBottom => match a {
            PartAttributes::FrontWidth => vec![width_edit(!h, vf, Amount::Value)],
            _ => Vec::new(),
        },
        AdjHullSide::Back => match a {
            PartAttributes::BackWidth => vec![
                width_edit(h, !vf, Amount::Value),
                width_edit(h, vf, Amount::ValuePlusBackSpread),
            ],
            PartAttributes::BackSpread => vec![width_edit(h, vf, Amount::ValuePlusBackWidth)],
            PartAttributes::TopRoundness | PartAttributes::BottomRoundness => roundness_edit(a, vf),
            PartAttributes::Height => vec![HullEdit::Height],
            _ => Vec::new(),
        },
        AdjHullSide::BackTop => match a {
            PartAttributes::BackWidth => vec![width_edit(h, !vf, Amount::ValuePlusBackSpread)],
            PartAttributes::BackSpread => vec![width_edit(h, !vf, Amount::ValuePlusBackWidth)],
            _ => Vec::new(),
        },
        AdjHullSide::BackBottom => match a {
            PartAttributes::BackWidth => vec![width_edit(h, vf, Amount::Value)],
            _ => Vec::new(),
        },
        AdjHullSide::Top => match a {
            PartAttributes::FrontSpread => vec![width_edit(h, !vf, Amount::ValuePlusFrontWidth)],
            PartAttributes::BackSpread => vec![width_edit(!h, !vf, Amount::ValuePlusBackWidth)],
            PartAttributes::FrontWidth => vec![width_edit(h, !vf, Amount::ValuePlusFrontSpread)],
            PartAttributes::BackWidth => vec![width_edit(!h, !vf, Amount::ValuePlusBackSpread)],
            _ => Vec::new(),
        },
        AdjHullSide::Bottom => match a {
            PartAttributes::FrontWidth => vec![width_edit(h, vf, Amount::Value)],
            PartAttributes::BackWidth => vec![width_edit(!h, vf, Amount::Value)],
            _ => Vec::new(),
        },
    }
}

/// The writes that one neighbour receives.
pub struct NeighbourEdits {
    /// Position of the neighbour in the candidate list.
    pub index: usize,
    pub edits: Vec<HullEdit>,
}

pub open spec fn side_at(i: int) -> AdjHullSide {
    if i == 0 {
        AdjHullSide::Front
    } else if i == 1 {
        AdjHullSide::FrontTop
    } else if i == 2 {
        AdjHullSide::FrontBottom
    } else if i == 3 {
        AdjHullSide::Top
    } else if i == 4 {
        AdjHullSide::Bottom
    } else if i == 5 {
        AdjHullSide::Back
    } else if i == 6 {
        AdjHullSide::BackTop
    } else {
        AdjHullSide::BackBottom
    }
}

/// Whether an edit of `a` is carried over to neighbours at all: numeric
/// hull attributes only.
pub open spec fn propagates(a: PartAttributes) -> bool {
    is_number_spec(a) && is_hull_spec(a)
}

/// Entry `i` of the plan of an edit of `a` with neighbours `corners`.
pub open spec fn entry_spec(a: PartAttributes, corners: CornerNeighbours, i: int, entry: Option<NeighbourEdits>) -> bool {
    match entry {
        None => !propagates(a) || corners.side_spec(side_at(i)).is_none(),
        Some(e) => propagates(a) && match corners.side_spec(side_at(i)) {
            Some(n) => e.index == n.index && e.edits@ == edits_spec(a, side_at(i), n.flips),
            None => false,
        },
    }
}

impl PartAttributes {
    /// What setting this attribute of a hull does to its neighbours
    /// `corners`: entry `i` is for direction `side_at(i)`, absent where there
    /// is no neighbour there or the attribute is not carried over, and
    /// otherwise names the neighbour and the edits it receives.
    pub fn smart_set_field(&self, corners: &CornerNeighbours) -> (r: Vec<Option<NeighbourEdits>>)
        ensures
            r@.len() == 8,
            forall|i: int|
                0 <= i < 8 ==> entry_spec(*self, *corners, i, #[trigger] r@[i]),
    {
        let a = *self;
        let carried = a.is_number() && a.is_adjustable_hull();
        let sides = all_sides();
        let mut r: Vec<Option<NeighbourEdits>> = Vec::new();
        let mut i: usize = 0;
        while i < 8
            invariant
                i <= 8,
                sides@.len() == 8,
                forall|j: int| 0 <= j < 8 ==> #[trigger] sides@[j] == side_at(j),
                carried == propagates(a),
                r@.len() == i,
                forall|j: int|
                    0 <= j < i ==> entry_spec(a, *corners, j, #[trigger] r@[j]),
            decreases 8 - i,
        {
            let side = sides[i];
            let entry = if carried {
                match corners.get(side) {
                    Some(n) => Some(NeighbourEdits { index: n.index, edits: propagation_edits(a, side, n.flips) }),
                    None => None,
                }
            } else {
                None
            };
            r.push(entry);
            i = i + 1;
        }
        r
    }
}

/// Bottom width and top total width (width plus spread) of the back end
/// (`back`) or the front end of `h`.
pub open spec fn end_widths(h: HullModel, back: bool) -> (int, int) {
    if back {
        (h.back_width, h.back_width + h.back_spread)
    } else {
        (h.front_width, h.front_width + h.front_spread)
    }
}

/// Which end of the neighbour touches the origin's end `origin_back`.
pub open spec fn touching_end(origin_back: bool, f: FlipFlags) -> bool {
    if origin_back {
        f.horizontal
    } else {
        !f.horizontal
    }
}

/// The cross-section of the origin's end `origin_back` equals that of the
/// neighbour's touching end, bottom and top swapped under a vertical flip.
pub open spec fn seam_matches(o: HullModel, n: HullModel, origin_back: bool, f: FlipFlags) -> bool {
    let (ob, ot) = end_widths(o, origin_back);
    let (nb, nt) = end_widths(n, touching_end(origin_back, f));
    if f.vertical {
        ob == nt && ot == nb
    } else {
        ob == nb && ot == nt
    }
}

pub open spec fn is_width_or_spread(a: PartAttributes) -> bool {
    a == PartAttributes::FrontWidth || a == PartAttributes::BackWidth || a
        == PartAttributes::FrontSpread || a == PartAttributes::BackSpread
}

/// The state of the origin and of its neighbour in direction `side` after
/// attribute `a` of the origin is set to `v` and the edit is propagated.
pub open spec fn after_edit(
    a: PartAttributes,
    side: AdjHullSide,
    f: FlipFlags,
    v: int,
    o: HullModel,
    n: HullModel,
) -> (HullModel, HullModel) {
    let o1 = set_attribute_spec(o, a, v);
    (o1, apply_edits_spec(n, edits_spec(a, side, f), v, o1))
}

/// Propagating the same edit a second time changes neither the origin nor
/// its neighbour.
pub proof fn lemma_propagation_idempotent(
    a: PartAttributes,
    side: AdjHullSide,
    f: FlipFlags,
    v: int,
    o: HullModel,
    n: HullModel,
)
    ensures
        after_edit(a, side, f, v, after_edit(a, side, f, v, o, n).0, after_edit(
            a,
            side,
            f,
            v,
            o,
            n,
        ).1) == after_edit(a, side, f, v, o, n),
{
    reveal_with_fuel(apply_edits_spec, 3);
}

/// Seen from the neighbour, the same seam is on the neighbour's touching end,
/// with the same flip flags: the seam relation is symmetric.
pub proof fn lemma_seam_symmetric(o: HullModel, n: HullModel, origin_back: bool, f: FlipFlags)
    ensures
        seam_matches(o, n, origin_back, f) == seam_matches(n, o, touching_end(origin_back, f), f),
        touching_end(touching_end(origin_back, f), f) == origin_back,
{
}

/// A width or spread edit of the origin, propagated across its front seam
/// (`origin_back` false) or its back seam, keeps a matching seam matching.
pub proof fn lemma_seam_continuity(
    a: PartAttributes,
    origin_back: bool,
    f: FlipFlags,
    v: int,
    o: HullModel,
    n: HullModel,
)
    requires
        is_width_or_spread(a),
        seam_matches(o, n, origin_back, f),
    ensures
        ({
            let side = if origin_back {
                AdjHullSide::Back
            } else {
                AdjHullSide::Front
            };
            let (o1, n1) = after_edit(a, side, f, v, o, n);
            seam_matches(o1, n1, origin_back, f)
        }),
{
    reveal_with_fuel(apply_edits_spec, 3);
}

} // verus!

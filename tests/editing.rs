use hull_editor::adjacency::{
    all_sides, with_corner_adjacent_adjustable_hulls, AdjHullSide, Adjacent, CornerNeighbours,
    FaceNeighbours, FlipFlags, BACK_FACE, FRONT_FACE, TOP_FACE,
};
use hull_editor::propagation::{propagation_edits, Amount, HullEdit, PartAttributes};
use hull_editor::smart_move::smart_move_index;

#[derive(Clone, Copy, Debug, PartialEq)]
struct Hull {
    height: f32,
    front_width: f32,
    back_width: f32,
    front_spread: f32,
    back_spread: f32,
    top_roundness: f32,
    bottom_roundness: f32,
}

fn hull(fw: f32, bw: f32, fs: f32, bs: f32) -> Hull {
    Hull { height: 4.0, front_width: fw, back_width: bw, front_spread: fs, back_spread: bs, top_roundness: 0.0, bottom_roundness: 0.0 }
}

fn set(h: &mut Hull, a: PartAttributes, v: f32) {
    match a {
        PartAttributes::FrontWidth => h.front_width = v,
        PartAttributes::BackWidth => h.back_width = v,
        PartAttributes::FrontSpread => h.front_spread = v,
        PartAttributes::BackSpread => h.back_spread = v,
        PartAttributes::Height => h.height = v,
        PartAttributes::TopRoundness => h.top_roundness = v,
        PartAttributes::BottomRoundness => h.bottom_roundness = v,
        _ => {}
    }
}

fn apply(n: &mut Hull, edits: &[HullEdit], v: f32, o: &Hull) {
    for e in edits {
        match *e {
            HullEdit::Width { back, bottom, amount } => {
                let x = match amount {
                    Amount::Value => v,
                    Amount::ValuePlusFrontSpread => v + o.front_spread,
                    Amount::ValuePlusFrontWidth => v + o.front_width,
                    Amount::ValuePlusBackSpread => v + o.back_spread,
                    Amount::ValuePlusBackWidth => v + o.back_width,
                };
                if back {
                    if bottom {
                        n.back_spread = (n.back_spread + n.back_width) - x;
                        n.back_width = x;
                    } else {
                        n.back_spread = x - n.back_width;
                    }
                } else if bottom {
                    n.front_spread = (n.front_spread + n.front_width) - x;
                    n.front_width = x;
                } else {
                    n.front_spread = x - n.front_width;
                }
            }
            HullEdit::TopRoundness => n.top_roundness = v,
            HullEdit::BottomRoundness => n.bottom_roundness = v,
            HullEdit::Height => n.height = v,
        }
    }
}

fn edit(a: PartAttributes, side: AdjHullSide, f: FlipFlags, v: f32, o: &mut Hull, n: &mut Hull) {
    set(o, a, v);
    let edits = propagation_edits(a, side, f);
    apply(n, &edits, v, o);
}

const NO_FLIP: FlipFlags = FlipFlags { horizontal: false, vertical: false };

#[test]
fn front_width_edit_reaches_the_back_of_the_front_neighbour() {
    let mut o = hull(2.0, 2.0, 0.0, 0.0);
    let mut n = hull(2.0, 2.0, 0.0, 0.0);
    edit(PartAttributes::FrontWidth, AdjHullSide::Front, NO_FLIP, 3.0, &mut o, &mut n);
    assert_eq!(o.front_width, 3.0);
    assert_eq!(n.back_width, 3.0);
    assert_eq!(n.back_spread, 0.0);
    assert_eq!(n.front_width, 2.0);
}

#[test]
fn front_width_plan_without_flips() {
    assert_eq!(
        propagation_edits(PartAttributes::FrontWidth, AdjHullSide::Front, NO_FLIP),
        vec![
            HullEdit::Width { back: true, bottom: true, amount: Amount::Value },
            HullEdit::Width { back: true, bottom: false, amount: Amount::ValuePlusFrontSpread },
        ]
    );
    assert!(propagation_edits(PartAttributes::BackWidth, AdjHullSide::Front, NO_FLIP).is_empty());
    assert!(propagation_edits(PartAttributes::Length, AdjHullSide::Back, NO_FLIP).is_empty());
}

#[test]
fn roundness_follows_vertical_flip() {
    let v = FlipFlags { horizontal: false, vertical: true };
    assert_eq!(propagation_edits(PartAttributes::TopRoundness, AdjHullSide::Front, NO_FLIP), vec![HullEdit::TopRoundness]);
    assert_eq!(propagation_edits(PartAttributes::TopRoundness, AdjHullSide::Front, v), vec![HullEdit::BottomRoundness]);
    assert_eq!(propagation_edits(PartAttributes::BottomRoundness, AdjHullSide::Back, v), vec![HullEdit::TopRoundness]);
    assert_eq!(propagation_edits(PartAttributes::Height, AdjHullSide::Back, v), vec![HullEdit::Height]);
}

#[test]
fn propagating_twice_changes_nothing_more() {
    let flips = [NO_FLIP, FlipFlags { horizontal: true, vertical: false }, FlipFlags { horizontal: false, vertical: true }, FlipFlags { horizontal: true, vertical: true }];
    let attrs = [PartAttributes::FrontWidth, PartAttributes::FrontSpread, PartAttributes::BackWidth, PartAttributes::BackSpread, PartAttributes::TopRoundness, PartAttributes::Height];
    for side in all_sides() {
        for f in flips {
            for a in attrs {
                let mut o = hull(2.0, 1.5, 0.5, 0.25);
                let mut n = hull(1.0, 2.0, 0.75, 0.5);
                edit(a, side, f, 3.0, &mut o, &mut n);
                let (o1, n1) = (o, n);
                edit(a, side, f, 3.0, &mut o, &mut n);
                assert_eq!((o, n), (o1, n1));
            }
        }
    }
}

#[test]
fn seam_stays_continuous_under_width_edits() {
    // Origin's front end meets the neighbour's back end, mirrored horizontally:
    // the neighbour's touching end is then its front end.
    let f = FlipFlags { horizontal: true, vertical: false };
    let mut o = hull(2.0, 1.0, 0.5, 0.0);
    let mut n = hull(2.0, 3.0, 0.5, 0.0);
    edit(PartAttributes::FrontWidth, AdjHullSide::Front, f, 3.0, &mut o, &mut n);
    edit(PartAttributes::FrontSpread, AdjHullSide::Front, f, 1.25, &mut o, &mut n);
    assert_eq!(n.front_width, o.front_width);
    assert_eq!(n.front_width + n.front_spread, o.front_width + o.front_spread);
    let mut o = hull(2.0, 1.0, 0.5, 0.0);
    let mut n = hull(1.0, 2.0, 0.0, 0.5);
    edit(PartAttributes::FrontSpread, AdjHullSide::Front, NO_FLIP, 1.5, &mut o, &mut n);
    assert_eq!(n.back_width + n.back_spread, o.front_width + o.front_spread);
    assert_eq!(n.back_width, o.front_width);
}

fn adj(index: usize, h: bool, v: bool) -> Adjacent {
    Adjacent { index, flips: FlipFlags { horizontal: h, vertical: v } }
}

#[test]
fn corners_combine_two_hops() {
    let mut origin = FaceNeighbours::empty();
    origin.insert(FRONT_FACE, adj(0, true, false));
    origin.insert(TOP_FACE, adj(2, false, false));
    let mut front = FaceNeighbours::empty();
    front.insert(TOP_FACE, adj(1, true, true));
    front.insert(BACK_FACE, adj(3, false, false));
    let detected = vec![front, FaceNeighbours::empty(), FaceNeighbours::empty(), FaceNeighbours::empty()];
    let r: CornerNeighbours = with_corner_adjacent_adjustable_hulls(&origin, &detected);
    assert_eq!(r.get(AdjHullSide::Front), Some(adj(0, true, false)));
    assert_eq!(r.get(AdjHullSide::FrontTop), Some(adj(1, false, true)));
    assert_eq!(r.get(AdjHullSide::FrontBottom), None);
    assert_eq!(r.get(AdjHullSide::Top), Some(adj(2, false, false)));
    assert_eq!(r.get(AdjHullSide::Back), None);
    assert_eq!(r.get(AdjHullSide::BackTop), None);
    assert_eq!(origin.len(), 2);
    assert_eq!(origin.get(0), None);
}

#[test]
fn smart_move_picks_step_or_last() {
    assert_eq!(smart_move_index(0, 0), None);
    assert_eq!(smart_move_index(0, 5), None);
    assert_eq!(smart_move_index(3, 0), Some(0));
    assert_eq!(smart_move_index(3, 1), Some(1));
    assert_eq!(smart_move_index(3, 7), Some(2));
    let offsets = [0.5f32, 1.0, 2.5];
    let mut last = f32::MIN;
    for step in 0..6 {
        let v = offsets[smart_move_index(offsets.len(), step).unwrap()];
        assert!(v >= last);
        last = v;
    }
}

#[test]
fn attribute_kinds() {
    assert!(PartAttributes::FrontWidth.is_number());
    assert!(PartAttributes::FrontWidth.is_adjustable_hull());
    assert!(!PartAttributes::Color.is_number());
    assert!(!PartAttributes::IgnorePhysics.is_number());
    assert!(PartAttributes::Id.is_number());
    assert!(!PartAttributes::PositionX.is_adjustable_hull());
    assert!(PartAttributes::HeightOffset.is_adjustable_hull());
}

#[test]
fn smart_set_field_plans_per_direction() {
    let mut origin = FaceNeighbours::empty();
    origin.insert(FRONT_FACE, adj(1, false, false));
    origin.insert(BACK_FACE, adj(2, true, false));
    let detected = vec![FaceNeighbours::empty(), FaceNeighbours::empty(), FaceNeighbours::empty()];
    let corners = with_corner_adjacent_adjustable_hulls(&origin, &detected);
    let plan = PartAttributes::FrontWidth.smart_set_field(&corners);
    assert_eq!(plan.len(), 8);
    let front = plan[0].as_ref().unwrap();
    assert_eq!(front.index, 1);
    assert_eq!(front.edits, propagation_edits(PartAttributes::FrontWidth, AdjHullSide::Front, NO_FLIP));
    assert!(plan[1].is_none() && plan[3].is_none());
    let back = plan[5].as_ref().unwrap();
    assert_eq!(back.index, 2);
    assert!(back.edits.is_empty());
    assert!(PartAttributes::PositionX.smart_set_field(&corners).iter().all(|e| e.is_none()));
}

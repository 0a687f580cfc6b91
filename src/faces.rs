//! Indexing of the faces, vertices and edges of an oriented box.
//!
//! Faces are numbered 0..6: 0, 1, 2 point along +x, +y, +z of the box's own
//! frame and 3, 4, 5 along -x, -y, -z. Vertices are numbered 0..8 by three
//! sign bits (bit 0 for x, bit 1 for y, bit 2 for z); edges are the twelve
//! pairs of vertices that differ in exactly one bit.
use vstd::prelude::*;

verus! {

pub open spec fn opposite_spec(i: int) -> int {
    (i + 3) % 6
}

/// The face on the other side of the box from face `i`.
pub fn opposite_face(i: u8) -> (r: u8)
    requires
        i < 6,
    ensures
        r < 6,
        r as int == opposite_spec(i as int),
        r != i,
        opposite_spec(r as int) == i as int,
{
    (i + 3) % 6
}

/// The local axis (0 for x, 1 for y, 2 for z) that face `i` is normal to.
pub fn face_axis(i: u8) -> (r: u8)
    requires
        i < 6,
    ensures
        r == i % 3,
{
    i % 3
}

/// Whether face `i` looks along the negative direction of its axis.
pub fn face_is_negative(i: u8) -> (r: bool)
    requires
        i < 6,
    ensures
        r == (i >= 3),
{
    i >= 3
}

/// Component `k` (0, 1, 2) of the unit vector that face `i` looks along.
pub open spec fn axis_component(i: int, k: int) -> int {
    if i % 3 != k {
        0
    } else if i < 3 {
        1
    } else {
        -1
    }
}

/// The unit vector, in the box's own frame, along which face `i` looks.
pub fn dir_from_index(i: &u8) -> (r: (i8, i8, i8))
    requires
        *i < 6,
    ensures
        r.0 as int == axis_component(*i as int, 0),
        r.1 as int == axis_component(*i as int, 1),
        r.2 as int == axis_component(*i as int, 2),
{
    let s: i8 = if *i < 3 { 1 } else { -1 };
    let a: u8 = *i % 3;
    if a == 0 {
        (s, 0, 0)
    } else if a == 1 {
        (0, s, 0)
    } else {
        (0, 0, s)
    }
}

/// Whether bit `b` (0, 1, 2) of the vertex number `v` is set.
pub open spec fn bit_of(v: int, b: int) -> bool {
    if b == 0 {
        v % 2 == 1
    } else if b == 1 {
        (v / 2) % 2 == 1
    } else {
        (v / 4) % 2 == 1
    }
}

/// For vertex `i`: whether it lies on the positive side along x, y and z.
pub fn vertex_signs(i: u8) -> (r: (bool, bool, bool))
    requires
        i < 8,
    ensures
        r.0 == bit_of(i as int, 0),
        r.1 == bit_of(i as int, 1),
        r.2 == bit_of(i as int, 2),
{
    (i % 2 == 1, (i / 2) % 2 == 1, (i / 4) % 2 == 1)
}

/// The value of bit `g` (0, 1, 2).
pub open spec fn bit_value(g: int) -> int {
    if g == 0 {
        1
    } else if g == 1 {
        2
    } else {
        4
    }
}

/// The `k`-th (0..4) vertex, in increasing order, whose bit `g` is clear.
pub open spec fn low_vertex(g: int, k: int) -> int {
    if g == 0 {
        2 * k
    } else if g == 1 {
        k % 2 + 4 * (k / 2)
    } else {
        k
    }
}

/// The two ends of edge `i`: edges 0..4 run along x, 4..8 along y and 8..12
/// along z, each group in increasing order of its first vertex.
pub open spec fn edge_spec(i: int) -> (int, int) {
    (low_vertex(i / 4, i % 4), low_vertex(i / 4, i % 4) + bit_value(i / 4))
}

/// The two vertices joined by edge `i`; they differ in exactly one bit.
pub fn edge_vertices(i: u8) -> (r: (u8, u8))
    requires
        i < 12,
    ensures
        r.0 as int == edge_spec(i as int).0,
        r.1 as int == edge_spec(i as int).1,
        r.0 < r.1 < 8,
        !bit_of(r.0 as int, i as int / 4),
        bit_of(r.1 as int, i as int / 4),
        forall|b: int| 0 <= b < 3 && b != i / 4 ==> bit_of(r.0 as int, b) == bit_of(r.1 as int, b),
{
    let g: u8 = i / 4;
    let k: u8 = i % 4;
    if g == 0 {
        (2 * k, 2 * k + 1)
    } else if g == 1 {
        (k % 2 + 4 * (k / 2), k % 2 + 4 * (k / 2) + 2)
    } else {
        (k, k + 4)
    }
}

} // verus!

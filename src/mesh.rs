//! Triangle topology of a lofted hull segment.
//!
//! With `n` samples per cross-section the mesh has `2 * (n + 1)` vertices:
//! the front ring `0..n`, the front centroid `n`, the back ring
//! `n + 1 .. 2 * n + 1` and the back centroid `2 * n + 1`. Its triangles are
//! the front fan, the back fan with reversed winding, and the side wall, two
//! triangles per ring segment including the one that closes the ring.
use vstd::prelude::*;

verus! {

/// Largest number of samples per cross-section that the indices can hold.
pub const MAX_RESOLUTION: u32 = 0x1000_0000;

/// Number of vertices of the mesh with `n` samples per cross-section.
pub open spec fn vertex_count_spec(n: int) -> int {
    2 * (n + 1)
}

/// Number of triangles of the mesh with `n` samples per cross-section.
pub open spec fn triangle_count_spec(n: int) -> int {
    4 * n
}

/// The sample after sample `i` around a ring of `n`.
pub open spec fn ring_next(i: int, n: int) -> int {
    if i + 1 == n {
        0
    } else {
        i + 1
    }
}

/// Triangle `t` of the mesh with `n` samples per cross-section: the front
/// fan, then the back fan from its last segment down, then the side wall.
pub open spec fn hull_triangle(n: int, t: int) -> (int, int, int) {
    let l = n + 1;
    if t < n {
        (t, ring_next(t, n), n)
    } else if t < 2 * n {
        let j = 2 * n - 1 - t;
        (n + l, l + ring_next(j, n), l + j)
    } else {
        let s = t - 2 * n;
        let p = s / 2;
        if s % 2 == 0 {
            (l + p, ring_next(p, n), p)
        } else {
            (l + p, l + ring_next(p, n), ring_next(p, n))
        }
    }
}

/// Number of vertices of the mesh with `resolution` samples per cross-section.
pub fn hull_vertex_count(resolution: u32) -> (r: u32)
    requires
        3 <= resolution <= MAX_RESOLUTION,
    ensures
        r as int == vertex_count_spec(resolution as int),
{
    2 * (resolution + 1)
}

fn next_in_ring(i: u32, n: u32) -> (r: u32)
    requires
        i < n,
    ensures
        r as int == ring_next(i as int, n as int),
{
    if i + 1 == n {
        0
    } else {
        i + 1
    }
}

/// The triangles of a hull segment's mesh with `resolution` samples per
/// cross-section, as triples of vertex numbers in counter-clockwise order
/// seen from outside.
pub fn hull_mesh_triangles(resolution: u32) -> (r: Vec<(u32, u32, u32)>)
    requires
        3 <= resolution <= MAX_RESOLUTION,
    ensures
        r@.len() == triangle_count_spec(resolution as int),
        forall|t: int|
            0 <= t < r@.len() ==> {
                let e = hull_triangle(resolution as int, t);
                &&& (#[trigger] r@[t]).0 as int == e.0
                &&& r@[t].1 as int == e.1
                &&& r@[t].2 as int == e.2
            },
        forall|t: int|
            0 <= t < r@.len() ==> {
                &&& (#[trigger] r@[t]).0 < 2 * (resolution + 1)
                &&& r@[t].1 < 2 * (resolution + 1)
                &&& r@[t].2 < 2 * (resolution + 1)
            },
{
    let n = resolution;
    let l = n + 1;
    let mut r: Vec<(u32, u32, u32)> = Vec::new();
    let mut t: u32 = 0;
    while t < n
        invariant
            3 <= n <= MAX_RESOLUTION,
            l == n + 1,
            t <= n,
            r@.len() == t,
            forall|q: int|
                0 <= q < r@.len() ==> {
                    let e = hull_triangle(n as int, q);
                    &&& (#[trigger] r@[q]).0 as int == e.0
                    &&& r@[q].1 as int == e.1
                    &&& r@[q].2 as int == e.2
                },
        decreases n - t,
    {
        r.push((t, next_in_ring(t, n), n));
        t = t + 1;
    }
    let mut k: u32 = 0;
    while k < n
        invariant
            3 <= n <= MAX_RESOLUTION,
            l == n + 1,
            k <= n,
            r@.len() == n + k,
            forall|q: int|
                0 <= q < r@.len() ==> {
                    let e = hull_triangle(n as int, q);
                    &&& (#[trigger] r@[q]).0 as int == e.0
                    &&& r@[q].1 as int == e.1
                    &&& r@[q].2 as int == e.2
                },
        decreases n - k,
    {
        let j = n - 1 - k;
        r.push((n + l, l + next_in_ring(j, n), l + j));
        k = k + 1;
    }
    let mut p: u32 = 0;
    while p < n
        invariant
            3 <= n <= MAX_RESOLUTION,
            l == n + 1,
            p <= n,
            r@.len() == 2 * n + 2 * p,
            forall|q: int|
                0 <= q < r@.len() ==> {
                    let e = hull_triangle(n as int, q);
                    &&& (#[trigger] r@[q]).0 as int == e.0
                    &&& r@[q].1 as int == e.1
                    &&& r@[q].2 as int == e.2
                },
        decreases n - p,
    {
        let next = next_in_ring(p, n);
        assert((2 * p as int) / 2 == p as int && (2 * p as int) % 2 == 0);
        assert((2 * p as int + 1) / 2 == p as int && (2 * p as int + 1) % 2 == 1);
        r.push((l + p, next, p));
        r.push((l + p, l + next, next));
        p = p + 1;
    }
    assert forall|t: int| 0 <= t < r@.len() implies {
        &&& (#[trigger] r@[t]).0 < 2 * (resolution + 1)
        &&& r@[t].1 < 2 * (resolution + 1)
        &&& r@[t].2 < 2 * (resolution + 1)
    } by {
        let e = hull_triangle(n as int, t);
        assert(r@[t].0 as int == e.0);
        if t >= 2 * n {
            assert((t - 2 * n) / 2 < n);
        }
    }
    r
}

/// Directed edge `k` (0, 1, 2) of triangle `t`: from its corner `k` to the next.
pub open spec fn triangle_edge(n: int, t: int, k: int) -> (int, int) {
    let e = hull_triangle(n, t);
    if k == 0 {
        (e.0, e.1)
    } else if k == 1 {
        (e.1, e.2)
    } else {
        (e.2, e.0)
    }
}

/// Edge `k` of triangle `t` is edge `k2` of triangle `t2` reversed.
pub open spec fn reversed_in(n: int, t: int, k: int, t2: int, k2: int) -> bool {
    &&& 0 <= t2 < triangle_count_spec(n)
    &&& t2 != t
    &&& 0 <= k2 < 3
    &&& triangle_edge(n, t2, k2) == (triangle_edge(n, t, k).1, triangle_edge(n, t, k).0)
}

/// The sample before sample `i` around a ring of `n`.
pub open spec fn ring_prev(i: int, n: int) -> int {
    if i == 0 {
        n - 1
    } else {
        i - 1
    }
}

/// The mesh is closed and consistently wound: every edge of every triangle
/// is also an edge of another triangle, run the other way.
pub proof fn lemma_mesh_closed(n: int, t: int, k: int)
    requires
        3 <= n,
        0 <= t < triangle_count_spec(n),
        0 <= k < 3,
    ensures
        exists|t2: int, k2: int| reversed_in(n, t, k, t2, k2),
{
    let side = 2 * n;
    if t < n {
        if k == 0 {
            assert((2 * t) / 2 == t && (2 * t) % 2 == 0);
            assert(reversed_in(n, t, k, side + 2 * t, 1));
        } else if k == 1 {
            assert(reversed_in(n, t, k, ring_next(t, n), 2));
        } else {
            assert(reversed_in(n, t, k, ring_prev(t, n), 1));
        }
    } else if t < 2 * n {
        let j = 2 * n - 1 - t;
        if k == 0 {
            assert(reversed_in(n, t, k, 2 * n - 1 - ring_next(j, n), 2));
        } else if k == 1 {
            assert((2 * j + 1) / 2 == j && (2 * j + 1) % 2 == 1);
            assert(reversed_in(n, t, k, side + 2 * j + 1, 0));
        } else {
            assert(reversed_in(n, t, k, 2 * n - 1 - ring_prev(j, n), 0));
        }
    } else {
        let s = t - side;
        let p = s / 2;
        if s % 2 == 0 {
            if k == 0 {
                assert((2 * p + 1) / 2 == p && (2 * p + 1) % 2 == 1);
                assert(reversed_in(n, t, k, t + 1, 2));
            } else if k == 1 {
                assert(reversed_in(n, t, k, p, 0));
            } else {
                let q = ring_prev(p, n);
                assert((2 * q + 1) / 2 == q && (2 * q + 1) % 2 == 1);
                assert(reversed_in(n, t, k, side + 2 * q + 1, 1));
            }
        } else {
            if k == 0 {
                assert(reversed_in(n, t, k, 2 * n - 1 - p, 1));
            } else if k == 1 {
                let q = ring_next(p, n);
                assert((2 * q) / 2 == q && (2 * q) % 2 == 0);
                assert(reversed_in(n, t, k, side + 2 * q, 2));
            } else {
                assert((2 * p) / 2 == p && (2 * p) % 2 == 0);
                assert(reversed_in(n, t, k, t - 1, 0));
            }
        }
    }
}

/// The triangle and edge slot that run from vertex `a` to vertex `b`, for
/// the directed edges of the mesh.
pub open spec fn edge_owner(n: int, a: int, b: int) -> (int, int) {
    let l = n + 1;
    if a < n && b < n {
        if b == ring_next(a, n) {
            (a, 0)
        } else {
            (2 * n + 2 * b, 1)
        }
    } else if a < n && b == n {
        (ring_prev(a, n), 1)
    } else if a == n {
        (b, 2)
    } else if a == n + l {
        (2 * n - 1 - ring_prev(b - l, n), 0)
    } else if b == n + l {
        (2 * n - 1 - (a - l), 2)
    } else if a >= l && b >= l {
        if b - l == ring_next(a - l, n) {
            (2 * n + 2 * (a - l) + 1, 0)
        } else {
            (2 * n - 1 - (b - l), 1)
        }
    } else if a >= l {
        if b == a - l {
            (2 * n + 2 * ring_prev(b, n) + 1, 1)
        } else {
            (2 * n + 2 * (a - l), 0)
        }
    } else {
        if b - l == a {
            (2 * n + 2 * a, 2)
        } else {
            (2 * n + 2 * (b - l) + 1, 2)
        }
    }
}

proof fn lemma_edge_owner(n: int, t: int, k: int)
    requires
        3 <= n,
        0 <= t < triangle_count_spec(n),
        0 <= k < 3,
    ensures
        edge_owner(n, triangle_edge(n, t, k).0, triangle_edge(n, t, k).1) == (t, k),
{
    if t >= 2 * n {
        let s = t - 2 * n;
        let p = s / 2;
        assert(s == 2 * p + s % 2);
    }
}

/// No directed edge is run by two triangles; with the closure of the mesh,
/// every edge is shared by exactly two triangles, one in each direction.
pub proof fn lemma_mesh_edges_unique(n: int, t1: int, k1: int, t2: int, k2: int)
    requires
        3 <= n,
        0 <= t1 < triangle_count_spec(n),
        0 <= k1 < 3,
        0 <= t2 < triangle_count_spec(n),
        0 <= k2 < 3,
        triangle_edge(n, t1, k1) == triangle_edge(n, t2, k2),
    ensures
        t1 == t2 && k1 == k2,
{
    lemma_edge_owner(n, t1, k1);
    lemma_edge_owner(n, t2, k2);
}

} // verus!

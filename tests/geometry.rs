use hull_editor::faces::{dir_from_index, edge_vertices, face_axis, face_is_negative, opposite_face, vertex_signs};
use hull_editor::mesh::{hull_mesh_triangles, hull_vertex_count};
use hull_editor::nearby::{get_nearby, Touch};
use hull_editor::touch::{all_things, contact_test, touch_checks, ContactTest, FeatureKind};
use std::collections::HashMap;

#[test]
fn opposite_faces_pair_up() {
    assert_eq!(opposite_face(0), 3);
    assert_eq!(opposite_face(2), 5);
    assert_eq!(opposite_face(4), 1);
    for i in 0..6u8 {
        assert_eq!(opposite_face(opposite_face(i)), i);
        assert_eq!(face_axis(i), face_axis(opposite_face(i)));
        assert_ne!(face_is_negative(i), face_is_negative(opposite_face(i)));
    }
}

#[test]
fn face_directions_are_unit_axes() {
    assert_eq!(dir_from_index(&0), (1, 0, 0));
    assert_eq!(dir_from_index(&1), (0, 1, 0));
    assert_eq!(dir_from_index(&2), (0, 0, 1));
    assert_eq!(dir_from_index(&3), (-1, 0, 0));
    assert_eq!(dir_from_index(&4), (0, -1, 0));
    assert_eq!(dir_from_index(&5), (0, 0, -1));
}

#[test]
fn vertex_signs_follow_bits() {
    assert_eq!(vertex_signs(0), (false, false, false));
    assert_eq!(vertex_signs(5), (true, false, true));
    assert_eq!(vertex_signs(6), (false, true, true));
    assert_eq!(vertex_signs(7), (true, true, true));
}

#[test]
fn edges_join_vertices_one_bit_apart() {
    assert_eq!(edge_vertices(0), (0, 1));
    assert_eq!(edge_vertices(3), (6, 7));
    assert_eq!(edge_vertices(5), (1, 3));
    assert_eq!(edge_vertices(6), (4, 6));
    assert_eq!(edge_vertices(11), (3, 7));
    let mut seen = Vec::new();
    for i in 0..12u8 {
        let (a, b) = edge_vertices(i);
        assert_eq!((a ^ b).count_ones(), 1);
        assert!(!seen.contains(&(a, b)));
        seen.push((a, b));
    }
}

#[test]
fn features_are_faces_vertices_edges() {
    let things = all_things();
    assert_eq!(things.len(), 26);
    assert_eq!(things[0].kind, FeatureKind::Face);
    assert_eq!(things[5].index, 5);
    assert_eq!(things[6].kind, FeatureKind::Vertex);
    assert_eq!(things[6].index, 0);
    assert_eq!(things[14].kind, FeatureKind::Edge);
    assert_eq!(things[25].index, 11);
}

#[test]
fn only_vertex_plane_and_edge_edge_make_contact() {
    assert_eq!(contact_test(FeatureKind::Vertex, FeatureKind::Face), Some(ContactTest::VertexToPlane));
    assert_eq!(contact_test(FeatureKind::Edge, FeatureKind::Edge), Some(ContactTest::EdgeToEdge));
    assert_eq!(contact_test(FeatureKind::Face, FeatureKind::Vertex), None);
    assert_eq!(contact_test(FeatureKind::Face, FeatureKind::Face), None);
    assert_eq!(contact_test(FeatureKind::Vertex, FeatureKind::Vertex), None);
    assert_eq!(contact_test(FeatureKind::Vertex, FeatureKind::Edge), None);
}

#[test]
fn reversed_pass_skips_same_kind() {
    assert_eq!(touch_checks(FeatureKind::Edge, FeatureKind::Edge), (Some(ContactTest::EdgeToEdge), None));
    assert_eq!(touch_checks(FeatureKind::Face, FeatureKind::Vertex), (None, Some(ContactTest::VertexToPlane)));
    assert_eq!(touch_checks(FeatureKind::Vertex, FeatureKind::Face), (Some(ContactTest::VertexToPlane), None));
}

#[test]
fn nearby_groups_by_origin_face_in_order() {
    let touching = vec![
        Touch { origin_face: 2, candidate: 0, candidate_face: 5 },
        Touch { origin_face: 1, candidate: 1, candidate_face: 4 },
        Touch { origin_face: 2, candidate: 3, candidate_face: 5 },
    ];
    let nearby = get_nearby(&touching);
    assert_eq!(nearby.len(), 6);
    assert_eq!(nearby[2], vec![(0, 5), (3, 5)]);
    assert_eq!(nearby[1], vec![(1, 4)]);
    assert!(nearby[0].is_empty() && nearby[3].is_empty() && nearby[4].is_empty() && nearby[5].is_empty());
    assert!(get_nearby(&Vec::new()).iter().all(|b| b.is_empty()));
}

#[test]
fn mesh_counts() {
    assert_eq!(hull_vertex_count(24), 50);
    assert_eq!(hull_mesh_triangles(24).len(), 96);
    assert_eq!(hull_mesh_triangles(3).len(), 12);
}

#[test]
fn mesh_first_triangles() {
    let t = hull_mesh_triangles(24);
    assert_eq!(t[0], (0, 1, 24));
    assert_eq!(t[23], (23, 0, 24));
    assert_eq!(t[24], (49, 25, 48));
    assert_eq!(t[48], (25, 1, 0));
    assert_eq!(t[49], (25, 26, 1));
    assert_eq!(t[94], (48, 0, 23));
    assert_eq!(t[95], (48, 25, 0));
}

#[test]
fn mesh_is_closed_at_resolution_24() {
    let t = hull_mesh_triangles(24);
    let mut undirected: HashMap<(u32, u32), u32> = HashMap::new();
    let mut directed: HashMap<(u32, u32), u32> = HashMap::new();
    for &(a, b, c) in &t {
        assert!(a < 50 && b < 50 && c < 50);
        assert!(a != b && b != c && a != c);
        for (x, y) in [(a, b), (b, c), (c, a)] {
            *undirected.entry((x.min(y), x.max(y))).or_insert(0) += 1;
            *directed.entry((x, y)).or_insert(0) += 1;
        }
    }
    assert!(undirected.values().all(|&n| n == 2));
    assert!(directed.values().all(|&n| n == 1));
}

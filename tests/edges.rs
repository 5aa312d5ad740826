use mesh_edges::builder::{build_edge_list, tags_select_edge, Selection};
use mesh_edges::edge_id::{canonicalize, edge_key};
use mesh_edges::line_list::{generate_edge_line_list_data, generate_edge_line_list_indices};
use mesh_edges::mesh::{DataVert, IndexBuffer, MeshView};
use std::collections::HashSet;

fn bare_mesh(indices: Option<IndexBuffer>) -> MeshView {
    MeshView {
        indices,
        positions: None,
        colors: None,
        normals: None,
        joint_indices: None,
        joint_weights: None,
        tags: None,
    }
}

fn full_mesh(indices: Vec<u32>, vertices: u32) -> MeshView {
    let n = vertices as usize;
    MeshView {
        indices: Some(IndexBuffer::U32(indices)),
        positions: Some((0..vertices).map(|v| [v, v + 100, v + 200]).collect()),
        colors: Some((0..vertices).map(|v| [v, 1, 2, 3]).collect()),
        normals: Some(vec![[0, 0, 1.0f32.to_bits()]; n]),
        joint_indices: Some((0..vertices).map(|v| [v as u16, 0, 0, 0]).collect()),
        joint_weights: Some(vec![[1.0f32.to_bits(), 0, 0, 0]; n]),
        tags: None,
    }
}

fn canonical_set(edges: &[(u32, u32)]) -> HashSet<(u32, u32)> {
    edges.iter().map(|&(a, b)| canonicalize(a, b)).collect()
}

#[test]
fn canonicalize_orders_pair() {
    assert_eq!(canonicalize(5, 2), (2, 5));
    assert_eq!(canonicalize(2, 5), (2, 5));
    assert_eq!(canonicalize(7, 7), (7, 7));
}

#[test]
fn canonicalize_is_symmetric_on_samples() {
    for &(a, b) in &[(0u32, 1u32), (9, 3), (u32::MAX, 0), (4, 4)] {
        assert_eq!(canonicalize(a, b), canonicalize(b, a));
    }
}

#[test]
fn edge_key_packs_both_indices() {
    assert_eq!(edge_key(3, 1), (1u64 << 32) | 3);
    assert_eq!(edge_key(1, 3), edge_key(3, 1));
    assert_eq!(edge_key(u32::MAX, u32::MAX), u64::MAX);
    assert_ne!(edge_key(0, 1), edge_key(1, 1));
}

#[test]
fn single_triangle_gives_three_edges() {
    let edges = build_edge_list(&vec![0, 1, 2], &Selection::Unconditional);
    assert_eq!(edges, vec![(0, 1), (1, 2), (2, 0)]);
    let expected: HashSet<(u32, u32)> = [(0, 1), (1, 2), (0, 2)].into_iter().collect();
    assert_eq!(canonical_set(&edges), expected);
}

#[test]
fn shared_edge_is_emitted_once() {
    let edges = build_edge_list(&vec![0, 1, 2, 1, 0, 3], &Selection::Unconditional);
    // six triangle edges, one of them shared: five distinct edges
    assert_eq!(edges.len(), 5);
    assert_eq!(edges, vec![(0, 1), (1, 2), (2, 0), (0, 3), (3, 1)]);
}

#[test]
fn unconditional_output_matches_distinct_edges() {
    let ix = vec![0, 1, 2, 2, 1, 3, 3, 1, 0, 4, 4, 4, 0, 2, 3];
    let edges = build_edge_list(&ix, &Selection::Unconditional);
    let mut all = Vec::new();
    for t in ix.chunks_exact(3) {
        all.push((t[0], t[1]));
        all.push((t[1], t[2]));
        all.push((t[2], t[0]));
    }
    assert_eq!(edges.len(), canonical_set(&all).len());
    assert_eq!(canonical_set(&edges), canonical_set(&all));
}

#[test]
fn stray_index_is_dropped() {
    let edges = build_edge_list(&vec![0, 1, 2, 3], &Selection::Unconditional);
    assert_eq!(edges, vec![(0, 1), (1, 2), (2, 0)]);
    let mesh = bare_mesh(Some(IndexBuffer::U16(vec![0, 1, 2, 3])));
    let pairs: Vec<(u32, u32)> = generate_edge_line_list_indices(&mesh)
        .lines
        .iter()
        .map(|l| (l.0.index, l.1.index))
        .collect();
    assert_eq!(pairs, vec![(0, 1), (1, 2), (2, 0)]);
}

#[test]
fn empty_index_buffer_gives_no_edges() {
    assert!(build_edge_list(&vec![], &Selection::Unconditional).is_empty());
    assert!(build_edge_list(&vec![0, 1], &Selection::Unconditional).is_empty());
}

#[test]
fn mesh_without_indices_gives_empty_list() {
    let mesh = bare_mesh(None);
    assert!(generate_edge_line_list_indices(&mesh).lines.is_empty());
}

#[test]
fn sixteen_bit_indices_are_widened() {
    let mesh = bare_mesh(Some(IndexBuffer::U16(vec![0, 1, 2, 1, 0, 3])));
    let pairs: Vec<(u32, u32)> = generate_edge_line_list_indices(&mesh)
        .lines
        .iter()
        .map(|l| (l.0.index, l.1.index))
        .collect();
    assert_eq!(pairs, vec![(0, 1), (1, 2), (2, 0), (0, 3), (3, 1)]);
    assert_eq!(IndexBuffer::U16(vec![7, 65535]).to_u32(), vec![7u32, 65535]);
}

#[test]
fn tag_selection_follows_float_equality() {
    let one = 1.0f32.to_bits();
    let two = 2.0f32.to_bits();
    let zero = 0.0f32.to_bits();
    let neg_zero = (-0.0f32).to_bits();
    let nan = f32::NAN.to_bits();
    assert!(tags_select_edge(one, one));
    assert!(!tags_select_edge(one, two));
    assert!(!tags_select_edge(zero, zero));
    assert!(!tags_select_edge(zero, neg_zero));
    assert!(!tags_select_edge(nan, nan));
    assert!(tags_select_edge(f32::INFINITY.to_bits(), f32::INFINITY.to_bits()));
}

#[test]
fn tag_filter_keeps_only_selected_edges() {
    let one = 1.0f32.to_bits();
    let two = 2.0f32.to_bits();
    let zero = 0.0f32.to_bits();
    // vertices 0, 1, 2 tagged 1; vertex 3 tagged 2; vertex 4 untagged (zero)
    let tags = vec![one, one, one, two, zero];
    let ix = vec![0, 1, 2, 2, 3, 4, 4, 0, 1, 3, 4, 1];
    let edges = build_edge_list(&ix, &Selection::TagFiltered(tags.clone()));
    assert_eq!(edges, vec![(0, 1), (1, 2), (2, 0)]);
    for &(a, b) in &edges {
        assert_ne!(tags[a as usize], zero);
        assert_eq!(tags[a as usize], tags[b as usize]);
    }
}

#[test]
fn tag_filter_with_all_zero_tags_emits_nothing() {
    let tags = vec![0u32; 4];
    let edges = build_edge_list(&vec![0, 1, 2, 2, 1, 3], &Selection::TagFiltered(tags));
    assert!(edges.is_empty());
}

#[test]
fn data_mode_snapshots_endpoint_attributes() {
    let mesh = full_mesh(vec![0, 1, 2, 1, 0, 3], 4);
    let list = generate_edge_line_list_data(&mesh);
    assert_eq!(list.lines.len(), 5);
    let (start, end) = list.lines[3];
    assert_eq!(
        start,
        DataVert {
            position: [0, 100, 200],
            color: Some([0, 1, 2, 3]),
            normal: Some([0, 0, 1.0f32.to_bits()]),
            joint_indices: Some([0, 0, 0, 0]),
            joint_weights: Some([1.0f32.to_bits(), 0, 0, 0]),
        }
    );
    assert_eq!(end.position, [3, 103, 203]);
    assert_eq!(end.color, Some([3, 1, 2, 3]));
    assert_eq!(end.joint_indices, Some([3, 0, 0, 0]));
}

#[test]
fn data_mode_without_joint_weights_is_empty() {
    let mut mesh = full_mesh(vec![0, 1, 2], 3);
    mesh.joint_weights = None;
    assert!(generate_edge_line_list_data(&mesh).lines.is_empty());
}

#[test]
fn data_mode_without_any_one_attribute_is_empty() {
    for missing in 0..6 {
        let mut mesh = full_mesh(vec![0, 1, 2], 3);
        match missing {
            0 => mesh.indices = None,
            1 => mesh.positions = None,
            2 => mesh.colors = None,
            3 => mesh.normals = None,
            4 => mesh.joint_indices = None,
            _ => mesh.joint_weights = None,
        }
        assert!(generate_edge_line_list_data(&mesh).lines.is_empty());
    }
}

#[test]
fn data_mode_applies_tags_when_present() {
    let one = 1.0f32.to_bits();
    let mut mesh = full_mesh(vec![0, 1, 2], 3);
    mesh.tags = Some(vec![one, one, 0]);
    let list = generate_edge_line_list_data(&mesh);
    assert_eq!(list.lines.len(), 1);
    assert_eq!(list.lines[0].0.position, [0, 100, 200]);
    assert_eq!(list.lines[0].1.position, [1, 101, 201]);
}

#[test]
fn data_mode_stray_index_is_dropped() {
    let mesh = full_mesh(vec![0, 1, 2, 3], 4);
    let list = generate_edge_line_list_data(&mesh);
    let ends: Vec<([u32; 3], [u32; 3])> =
        list.lines.iter().map(|l| (l.0.position, l.1.position)).collect();
    assert_eq!(
        ends,
        vec![
            ([0, 100, 200], [1, 101, 201]),
            ([1, 101, 201], [2, 102, 202]),
            ([2, 102, 202], [0, 100, 200]),
        ]
    );
}

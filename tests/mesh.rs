use graph4d::mesh::{Layout, Mesh, QuadSplit, Slot};
use graph4d::primitive::Primitive;

fn slot(corner: usize, face: Option<usize>) -> Slot {
    Slot { corner, face }
}

#[test]
fn point_and_line_layouts() {
    let l = Primitive::Point(()).layout(QuadSplit::Shared12);
    assert_eq!(l, Layout { faces: vec![], slots: vec![slot(0, None)], indices: vec![0] });
    let l = Primitive::Line((), ()).layout(QuadSplit::Shared12);
    assert_eq!(l.slots, vec![slot(0, None), slot(1, None)]);
    assert_eq!(l.indices, vec![0, 1]);
}

#[test]
fn triangle_layout_shares_one_normal() {
    let l = Primitive::Triangle((), (), ()).layout(QuadSplit::Shared13);
    assert_eq!(l.faces, vec![[0, 1, 2]]);
    assert_eq!(l.slots, vec![slot(0, Some(0)), slot(1, Some(0)), slot(2, Some(0))]);
    assert_eq!(l.indices, vec![0, 1, 2]);
}

#[test]
fn quad_layout_follows_split() {
    let q = Primitive::Quad((), (), (), ());
    assert_eq!(q.layout(QuadSplit::Shared12).indices, vec![0, 1, 2, 1, 2, 3]);
    assert_eq!(q.layout(QuadSplit::Shared13).indices, vec![0, 1, 3, 1, 3, 2]);
    assert_eq!(q.layout(QuadSplit::Shared23).indices, vec![0, 2, 3, 2, 3, 1]);
    assert_eq!(q.layout(QuadSplit::Shared23).slots.len(), 4);
}

#[test]
fn tetra_layout_has_four_separate_faces() {
    let l = Primitive::Tetra((), (), (), ()).layout(QuadSplit::Shared12);
    assert_eq!(l.faces, vec![[0, 1, 2], [0, 2, 3], [0, 3, 1], [2, 1, 3]]);
    let corners: Vec<usize> = l.slots.iter().map(|s| s.corner).collect();
    assert_eq!(corners, vec![0, 1, 2, 0, 2, 3, 0, 3, 1, 2, 1, 3]);
    let faces: Vec<Option<usize>> = l.slots.iter().map(|s| s.face).collect();
    assert_eq!(
        faces,
        vec![Some(0), Some(0), Some(0), Some(1), Some(1), Some(1), Some(2), Some(2), Some(2), Some(3), Some(3), Some(3)]
    );
    assert_eq!(l.indices, (0..12).collect::<Vec<u32>>());
}

#[test]
fn mesh_append_shifts_indices() {
    let mut m: Mesh<char> = Mesh::new();
    assert!(m.append(vec!['a', 'b', 'c'], &vec![0, 1, 2]));
    assert!(m.append(vec!['d', 'e'], &vec![1, 0]));
    assert_eq!(m.vertices(), &vec!['a', 'b', 'c', 'd', 'e']);
    assert_eq!(m.indices(), &vec![0, 1, 2, 4, 3]);
}

#[test]
fn mesh_append_refuses_stray_index() {
    let mut m: Mesh<char> = Mesh::new();
    assert!(m.append(vec!['a'], &vec![0]));
    assert!(!m.append(vec!['b', 'c'], &vec![0, 2]));
    assert_eq!(m.vertices(), &vec!['a']);
    assert_eq!(m.indices(), &vec![0]);
}

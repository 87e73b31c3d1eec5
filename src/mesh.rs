//! Laying out clipped primitives for a triangle rasterizer.
//!
//! Every primitive becomes a list of output vertices, each a copy of one of
//! its corners shaded by the normal of one face, and a list of indices into
//! those vertices.  The caller computes the face normals: the normal of the
//! face `[a, b, c]` is the normalized 3D cross product of `c - a` and
//! `b - a`.  A tetrahedron's faces get a normal each and are laid out as
//! four separate triangles, so that no smoothing crosses an edge.
use vstd::prelude::*;
use crate::primitive::Primitive;

verus! {

/// The diagonal along which a quad is cut into two triangles.  The caller
/// takes, among the edges from corner 0 to corners 1, 2 and 3, the pair of
/// directions with the least dot product, and shares the diagonal between
/// the two corners of that pair.
#[derive(Clone, Copy, Debug, PartialEq, Eq, Structural)]
pub enum QuadSplit {
    /// Triangles `0 1 2` and `1 2 3`.
    Shared12,
    /// Triangles `0 1 3` and `1 3 2`.
    Shared13,
    /// Triangles `0 2 3` and `2 3 1`.
    Shared23,
}

/// One output vertex: a copy of corner `corner`, shaded by the normal of
/// face `face` of the layout, or by no normal at all where there is none.
#[derive(Clone, Copy, Debug, PartialEq, Eq, Structural)]
pub struct Slot {
    pub corner: usize,
    pub face: Option<usize>,
}

/// How a primitive is laid out: its faces as corner triples, its output
/// vertices, and indices into those vertices.
#[derive(Debug, PartialEq, Eq)]
pub struct Layout {
    pub faces: Vec<[usize; 3]>,
    pub slots: Vec<Slot>,
    pub indices: Vec<u32>,
}

pub open spec fn slot(corner: usize, face: Option<usize>) -> Slot {
    Slot { corner, face }
}

pub open spec fn quad_index_seq(split: QuadSplit) -> Seq<u32> {
    match split {
        QuadSplit::Shared12 => seq![0u32, 1, 2, 1, 2, 3],
        QuadSplit::Shared13 => seq![0u32, 1, 3, 1, 3, 2],
        QuadSplit::Shared23 => seq![0u32, 2, 3, 2, 3, 1],
    }
}

/// The faces of a tetrahedron: each omits one corner, and is ordered so
/// that its normal points outwards for a positively oriented tetrahedron.
pub open spec fn tetra_face_seq() -> Seq<[usize; 3]> {
    seq![[0usize, 1, 2], [0usize, 2, 3], [0usize, 3, 1], [2usize, 1, 3]]
}

/// The layout of `p`, with quads cut along `split`.
pub open spec fn layout_of<V>(p: Primitive<V>, split: QuadSplit) -> (Seq<[usize; 3]>, Seq<Slot>, Seq<u32>) {
    match p {
        Primitive::Point(..) => (seq![], seq![slot(0, None)], seq![0u32]),
        Primitive::Line(..) => (seq![], seq![slot(0, None), slot(1, None)], seq![0u32, 1]),
        Primitive::Triangle(..) => (
            seq![[0usize, 1, 2]],
            seq![slot(0, Some(0)), slot(1, Some(0)), slot(2, Some(0))],
            seq![0u32, 1, 2],
        ),
        Primitive::Quad(..) => (
            seq![[0usize, 1, 2]],
            seq![slot(0, Some(0)), slot(1, Some(0)), slot(2, Some(0)), slot(3, Some(0))],
            quad_index_seq(split),
        ),
        Primitive::Tetra(..) => (
            tetra_face_seq(),
            Seq::new(12, |k: int| slot(tetra_face_seq()[k / 3][k % 3], Some((k / 3) as usize))),
            Seq::new(12, |k: int| k as u32),
        ),
    }
}

impl Layout {
    pub open spec fn view(&self) -> (Seq<[usize; 3]>, Seq<Slot>, Seq<u32>) {
        (self.faces@, self.slots@, self.indices@)
    }

    /// Every face and slot names a corner of a primitive with `n` corners,
    /// every slot a face of the layout, and every index a slot.
    pub open spec fn fits(&self, n: nat) -> bool {
        &&& forall|f: int, k: int|
            0 <= f < self.faces@.len() && 0 <= k < 3 ==> #[trigger] self.faces@[f][k] < n
        &&& forall|s: int|
            0 <= s < self.slots@.len() ==> {
                &&& (#[trigger] self.slots@[s]).corner < n
                &&& self.slots@[s].face matches Some(f) ==> f < self.faces@.len()
            }
        &&& forall|i: int|
            0 <= i < self.indices@.len() ==> (#[trigger] self.indices@[i]) < self.slots@.len()
    }
}

fn tetra_faces() -> (r: Vec<[usize; 3]>)
    ensures
        r@ == tetra_face_seq(),
{
    let r = vec![[0usize, 1, 2], [0usize, 2, 3], [0usize, 3, 1], [2usize, 1, 3]];
    assert(r@ =~= tetra_face_seq());
    r
}

impl<V> Primitive<V> {
    /// The layout of this primitive, with a quad cut along `split`.
    pub fn layout(&self, split: QuadSplit) -> (r: Layout)
        ensures
            r.view() == layout_of(*self, split),
            r.fits(self.corners().len()),
    {
        match self {
            Primitive::Point(..) => {
                let r = Layout {
                    faces: Vec::new(),
                    slots: vec![Slot { corner: 0, face: None }],
                    indices: vec![0u32],
                };
                assert(r.view() =~~= layout_of(*self, split));
                r
            },
            Primitive::Line(..) => {
                let r = Layout {
                    faces: Vec::new(),
                    slots: vec![Slot { corner: 0, face: None }, Slot { corner: 1, face: None }],
                    indices: vec![0u32, 1],
                };
                assert(r.view() =~~= layout_of(*self, split));
                r
            },
            Primitive::Triangle(..) => {
                let r = Layout {
                    faces: vec![[0usize, 1, 2]],
                    slots: vec![
                        Slot { corner: 0, face: Some(0) },
                        Slot { corner: 1, face: Some(0) },
                        Slot { corner: 2, face: Some(0) },
                    ],
                    indices: vec![0u32, 1, 2],
                };
                assert(r.view() =~~= layout_of(*self, split));
                r
            },
            Primitive::Quad(..) => {
                let indices = match split {
                    QuadSplit::Shared12 => vec![0u32, 1, 2, 1, 2, 3],
                    QuadSplit::Shared13 => vec![0u32, 1, 3, 1, 3, 2],
                    QuadSplit::Shared23 => vec![0u32, 2, 3, 2, 3, 1],
                };
                let r = Layout {
                    faces: vec![[0usize, 1, 2]],
                    slots: vec![
                        Slot { corner: 0, face: Some(0) },
                        Slot { corner: 1, face: Some(0) },
                        Slot { corner: 2, face: Some(0) },
                        Slot { corner: 3, face: Some(0) },
                    ],
                    indices,
                };
                assert(r.view() =~~= layout_of(*self, split));
                r
            },
            Primitive::Tetra(..) => {
                let faces = tetra_faces();
                let mut slots: Vec<Slot> = Vec::new();
                let mut indices: Vec<u32> = Vec::new();
                let mut f: usize = 0;
                while f < 4
                    invariant
                        f <= 4,
                        faces@ == tetra_face_seq(),
                        slots@.len() == 3 * f,
                        indices@.len() == 3 * f,
                        forall|k: int|
                            0 <= k < 3 * f ==> #[trigger] slots@[k] == slot(
                                tetra_face_seq()[k / 3][k % 3],
                                Some((k / 3) as usize),
                            ),
                        forall|k: int| 0 <= k < 3 * f ==> #[trigger] indices@[k] == k as u32,
                    decreases 4 - f,
                {
                    let mut c: usize = 0;
                    while c < 3
                        invariant
                            f < 4,
                            c <= 3,
                            faces@ == tetra_face_seq(),
                            slots@.len() == 3 * f + c,
                            indices@.len() == 3 * f + c,
                            forall|k: int|
                                0 <= k < 3 * f + c ==> #[trigger] slots@[k] == slot(
                                    tetra_face_seq()[k / 3][k % 3],
                                    Some((k / 3) as usize),
                                ),
                            forall|k: int| 0 <= k < 3 * f + c ==> #[trigger] indices@[k] == k as u32,
                        decreases 3 - c,
                    {
                        let ghost k = 3 * f + c;
                        assert(k / 3 == f && k % 3 == c) by (nonlinear_arith)
                            requires
                                k == 3 * f + c,
                                c < 3,
                        ;
                        slots.push(Slot { corner: faces[f][c], face: Some(f) });
                        indices.push((3 * f + c) as u32);
                        c = c + 1;
                    }
                    f = f + 1;
                }
                let r = Layout { faces, slots, indices };
                assert(r.view().1 =~= layout_of(*self, split).1);
                assert(r.view().2 =~= layout_of(*self, split).2);
                assert forall|s: int| 0 <= s < r.slots@.len() implies (#[trigger] r.slots@[s]).corner
                    < 4 && (r.slots@[s].face matches Some(g) ==> g < 4) by {
                    assert(0 <= s / 3 < 4);
                }
                r
            },
        }
    }
}

/// Vertex and index buffers, built up one primitive at a time.  Every
/// index names a vertex of the buffer.
pub struct Mesh<V> {
    vertices: Vec<V>,
    indices: Vec<u32>,
}

impl<V> Mesh<V> {
    pub closed spec fn vertex_seq(&self) -> Seq<V> {
        self.vertices@
    }

    pub closed spec fn index_seq(&self) -> Seq<u32> {
        self.indices@
    }

    pub open spec fn well_formed(&self) -> bool {
        forall|i: int|
            0 <= i < self.index_seq().len() ==> (#[trigger] self.index_seq()[i])
                < self.vertex_seq().len()
    }

    pub fn new() -> (r: Mesh<V>)
        ensures
            r.vertex_seq() == Seq::<V>::empty(),
            r.index_seq() == Seq::<u32>::empty(),
            r.well_formed(),
    {
        Mesh { vertices: Vec::new(), indices: Vec::new() }
    }

    pub fn vertices(&self) -> (r: &Vec<V>)
        ensures
            r@ == self.vertex_seq(),
    {
        &self.vertices
    }

    pub fn indices(&self) -> (r: &Vec<u32>)
        ensures
            r@ == self.index_seq(),
    {
        &self.indices
    }

    /// Appends the vertices of one primitive and its indices, shifted past
    /// the vertices already there.  Nothing is appended, and `false`
    /// returned, where an index names no vertex of `vertices` or where the
    /// buffer would outgrow what a `u32` index can name.
    pub fn append(&mut self, vertices: Vec<V>, indices: &Vec<u32>) -> (ok: bool)
        requires
            old(self).well_formed(),
        ensures
            final(self).well_formed(),
            ok == (old(self).vertex_seq().len() + vertices@.len() <= u32::MAX + 1 && forall|
                i: int,
            |
                0 <= i < indices@.len() ==> (#[trigger] indices@[i]) < vertices@.len()),
            ok ==> final(self).vertex_seq() == old(self).vertex_seq() + vertices@,
            ok ==> final(self).index_seq() == old(self).index_seq() + indices@.map_values(
                |i: u32| (i + old(self).vertex_seq().len()) as u32,
            ),
            !ok ==> *final(self) == *old(self),
    {
        let base = self.vertices.len();
        if base as u64 > 0x1_0000_0000u64 || vertices.len() as u64 > 0x1_0000_0000u64 - base as u64 {
            return false;
        }
        let mut k: usize = 0;
        while k < indices.len()
            invariant
                *self == *old(self),
                self.well_formed(),
                k <= indices@.len(),
                forall|i: int| 0 <= i < k ==> (#[trigger] indices@[i]) < vertices@.len(),
            decreases indices.len() - k,
        {
            if indices[k] as usize >= vertices.len() {
                return false;
            }
            k = k + 1;
        }
        let ghost old_indices = self.indices@;
        let mut k: usize = 0;
        while k < indices.len()
            invariant
                base == old(self).vertices@.len(),
                self.vertices@ == old(self).vertices@,
                base + vertices@.len() <= u32::MAX + 1,
                k <= indices@.len(),
                forall|i: int| 0 <= i < indices@.len() ==> (#[trigger] indices@[i]) < vertices@.len(),
                self.indices@ == old(self).indices@ + indices@.subrange(0, k as int).map_values(
                    |i: u32| (i + base) as u32,
                ),
            decreases indices.len() - k,
        {
            self.indices.push((indices[k] as usize + base) as u32);
            proof {
                assert(indices@.subrange(0, k + 1).map_values(|i: u32| (i + base) as u32)
                    =~= indices@.subrange(0, k as int).map_values(|i: u32| (i + base) as u32).push(
                    (indices@[k as int] + base) as u32,
                ));
            }
            k = k + 1;
        }
        assert(indices@.subrange(0, indices@.len() as int) =~= indices@);
        let ghost batch = vertices@;
        let mut vertices = vertices;
        self.vertices.append(&mut vertices);
        assert forall|i: int| 0 <= i < self.indices@.len() implies (#[trigger] self.indices@[i])
            < self.vertices@.len() by {
            if i >= old_indices.len() {
                let j = i - old_indices.len();
                assert(indices@.subrange(0, indices@.len() as int) =~= indices@);
                assert(self.indices@[i] == indices@.map_values(|x: u32| (x + base) as u32)[j]);
                assert(indices@[j] < batch.len());
                assert(self.indices@[i] == indices@[j] + base);
            } else {
                assert(self.indices@[i] == old(self).index_seq()[i]);
                assert(old(self).index_seq()[i] < old(self).vertex_seq().len());
            }
        }
        true
    }
}

} // verus!

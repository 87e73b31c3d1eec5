use vstd::prelude::*;

verus! {

/// A primitive of one to four vertices.  `Quad` and `Tetra` both have four
/// vertices but differ in topology: a quad is a closed loop of four edges,
/// a tetrahedron has all six edges between its corners.
#[derive(Clone, Copy, Debug, PartialEq, Eq)]
pub enum Primitive<V> {
    Point(V),
    Line(V, V),
    Triangle(V, V, V),
    Quad(V, V, V, V),
    Tetra(V, V, V, V),
}

impl<V> Primitive<V> {
    /// The vertices in their order in the primitive.
    pub open spec fn corners(self) -> Seq<V> {
        match self {
            Primitive::Point(a) => seq![a],
            Primitive::Line(a, b) => seq![a, b],
            Primitive::Triangle(a, b, c) => seq![a, b, c],
            Primitive::Quad(a, b, c, d) => seq![a, b, c, d],
            Primitive::Tetra(a, b, c, d) => seq![a, b, c, d],
        }
    }

    /// The same kind of primitive, with each vertex replaced by its image
    /// under `f`.
    pub fn map<W, F: Fn(V) -> W>(self, f: F) -> (r: Primitive<W>)
        requires
            forall|v: V| call_requires(f, (v,)),
        ensures
            r.same_kind(self),
            r.corners().len() == self.corners().len(),
            forall|i: int|
                0 <= i < self.corners().len() ==> call_ensures(
                    f,
                    (#[trigger] self.corners()[i],),
                    r.corners()[i],
                ),
    {
        match self {
            Primitive::Point(a) => Primitive::Point(f(a)),
            Primitive::Line(a, b) => Primitive::Line(f(a), f(b)),
            Primitive::Triangle(a, b, c) => Primitive::Triangle(f(a), f(b), f(c)),
            Primitive::Quad(a, b, c, d) => Primitive::Quad(f(a), f(b), f(c), f(d)),
            Primitive::Tetra(a, b, c, d) => Primitive::Tetra(f(a), f(b), f(c), f(d)),
        }
    }

    /// Whether two primitives are of the same kind, whatever their vertices.
    pub open spec fn same_kind<W>(self, other: Primitive<W>) -> bool {
        match (self, other) {
            (Primitive::Point(..), Primitive::Point(..)) => true,
            (Primitive::Line(..), Primitive::Line(..)) => true,
            (Primitive::Triangle(..), Primitive::Triangle(..)) => true,
            (Primitive::Quad(..), Primitive::Quad(..)) => true,
            (Primitive::Tetra(..), Primitive::Tetra(..)) => true,
            _ => false,
        }
    }
}

impl<V: Copy> Primitive<V> {
    /// The vertices in their order in the primitive.
    pub fn vertices(&self) -> (r: Vec<V>)
        ensures
            r@ == self.corners(),
    {
        let mut r: Vec<V> = Vec::new();
        match *self {
            Primitive::Point(a) => {
                r.push(a);
            },
            Primitive::Line(a, b) => {
                r.push(a);
                r.push(b);
            },
            Primitive::Triangle(a, b, c) => {
                r.push(a);
                r.push(b);
                r.push(c);
            },
            Primitive::Quad(a, b, c, d) | Primitive::Tetra(a, b, c, d) => {
                r.push(a);
                r.push(b);
                r.push(c);
                r.push(d);
            },
        }
        assert(r@ =~= self.corners());
        r
    }
}

} // verus!

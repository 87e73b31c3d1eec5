//! Facts about the clipper, stated over vertex sides.
use vstd::prelude::*;
use crate::clip::{ClipPoint, Section, Side, clip_defined, clip_of, dedup, edges, hits, first_line, mem, point_hits};
use crate::primitive::Primitive;

verus! {

/// Two sides strictly apart: one above the hyperplane, one below.
pub open spec fn opposite(x: Side, y: Side) -> bool {
    (x == Side::Above && y == Side::Below) || (x == Side::Below && y == Side::Above)
}

pub open spec fn strict(x: Side) -> bool {
    x != Side::On
}

/// The edge between corners on sides `x` and `y` is hit: one end lies in
/// the hyperplane, or the ends lie on opposite sides.
pub open spec fn edge_hit_by(x: Side, y: Side) -> bool {
    x == Side::On || y == Side::On || opposite(x, y)
}

/// A quad all four of whose edges are hit, though it does not lie in the
/// hyperplane and is not touched in two opposite corners alone.  A flat
/// convex quad is never cut that way.
pub open spec fn quad_faulty(a: Side, b: Side, c: Side, d: Side) -> bool {
    &&& edge_hit_by(a, b) && edge_hit_by(b, c) && edge_hit_by(c, d) && edge_hit_by(d, a)
    &&& !(a == Side::On && b == Side::On && c == Side::On && d == Side::On)
    &&& !(a == Side::On && c == Side::On && strict(b) && strict(d))
    &&& !(b == Side::On && d == Side::On && strict(a) && strict(c))
}

/// `x` is the only vertex in the hyperplane, and the other three do not all
/// lie on one side.
pub open spec fn lone_on_split(x: Side, p: Side, q: Side, r: Side) -> bool {
    x == Side::On && strict(p) && strict(q) && strict(r) && !(p == q && q == r)
}

/// A tetrahedron with one vertex in the hyperplane and the others on both
/// sides of it, or with two vertices in it and the other two on opposite
/// sides.
pub open spec fn tetra_faulty(a: Side, b: Side, c: Side, d: Side) -> bool {
    ||| lone_on_split(a, b, c, d)
    ||| lone_on_split(b, a, c, d)
    ||| lone_on_split(c, a, b, d)
    ||| lone_on_split(d, a, b, c)
    ||| (a == Side::On && b == Side::On && opposite(c, d))
    ||| (a == Side::On && c == Side::On && opposite(b, d))
    ||| (a == Side::On && d == Side::On && opposite(b, c))
    ||| (b == Side::On && c == Side::On && opposite(a, d))
    ||| (b == Side::On && d == Side::On && opposite(a, c))
    ||| (c == Side::On && d == Side::On && opposite(a, b))
}

/// Points and segments always clip by the rules.
pub proof fn lemma_point_and_line_defined(a: Side, b: Side)
    ensures
        clip_defined(Primitive::Point(a)),
        clip_defined(Primitive::Line(a, b)),
{
}

/// A triangle always clips by the rules.
pub proof fn lemma_triangle_defined(a: Side, b: Side, c: Side)
    ensures
        clip_defined(Primitive::Triangle(a, b, c)),
{
    reveal_with_fuel(hits, 4);
    reveal_with_fuel(first_line, 4);
    reveal_with_fuel(point_hits, 4);
    reveal_with_fuel(dedup, 4);
    reveal_with_fuel(mem, 4);
}

/// A quad clips by the rules unless all four edges are hit while it neither
/// lies in the hyperplane nor touches it in two opposite corners alone.
#[verifier::spinoff_prover]
#[verifier::rlimit(100)]
pub proof fn lemma_quad_defined(a: Side, b: Side, c: Side, d: Side)
    ensures
        clip_defined(Primitive::Quad(a, b, c, d)) <==> !quad_faulty(a, b, c, d),
{
    reveal_with_fuel(hits, 5);
    reveal_with_fuel(first_line, 4);
    reveal_with_fuel(point_hits, 5);
    reveal_with_fuel(dedup, 5);
    reveal_with_fuel(mem, 5);
    match b {
        Side::Below => {},
        Side::On => {},
        Side::Above => {},
    }
}

/// A tetrahedron clips by the rules unless one vertex lies in the
/// hyperplane and the other three on both sides of it, or two lie in it and
/// the other two on opposite sides.
#[verifier::spinoff_prover]
#[verifier::rlimit(100)]
pub proof fn lemma_tetra_defined(a: Side, b: Side, c: Side, d: Side)
    ensures
        clip_defined(Primitive::Tetra(a, b, c, d)) <==> !tetra_faulty(a, b, c, d),
{
    reveal_with_fuel(hits, 7);
    reveal_with_fuel(first_line, 6);
    reveal_with_fuel(point_hits, 7);
    match b {
        Side::Below => {},
        Side::On => {},
        Side::Above => {},
    }
}

/// The primitive of the same kind whose points are the corners of `p`, in
/// order.
pub open spec fn corner_names<V>(p: Primitive<V>) -> Primitive<ClipPoint> {
    match p {
        Primitive::Point(..) => Primitive::Point(ClipPoint::Corner(0)),
        Primitive::Line(..) => Primitive::Line(ClipPoint::Corner(0), ClipPoint::Corner(1)),
        Primitive::Triangle(..) => Primitive::Triangle(
            ClipPoint::Corner(0),
            ClipPoint::Corner(1),
            ClipPoint::Corner(2),
        ),
        Primitive::Quad(..) => Primitive::Quad(
            ClipPoint::Corner(0),
            ClipPoint::Corner(1),
            ClipPoint::Corner(2),
            ClipPoint::Corner(3),
        ),
        Primitive::Tetra(..) => Primitive::Tetra(
            ClipPoint::Corner(0),
            ClipPoint::Corner(1),
            ClipPoint::Corner(2),
            ClipPoint::Corner(3),
        ),
    }
}

/// A primitive whose vertices all lie strictly on one side of the
/// hyperplane misses it.
pub proof fn lemma_one_side_misses(p: Primitive<Side>, t: Side)
    requires
        strict(t),
        forall|i: int| 0 <= i < p.corners().len() ==> p.corners()[i] == t,
    ensures
        clip_defined(p),
        clip_of(p) == None::<Section<ClipPoint>>,
{
    reveal_with_fuel(hits, 7);
    let s = p.corners();
    assert(s[0] == t);
    if s.len() > 1 {
        assert(s[1] == t);
    }
    if s.len() > 2 {
        assert(s[2] == t);
    }
    if s.len() > 3 {
        assert(s[3] == t);
    }
}

/// A primitive whose vertices all lie in the hyperplane is kept whole: the
/// result is the same primitive, made of the same corners in the same order.
pub proof fn lemma_in_plane_kept(p: Primitive<Side>)
    requires
        forall|i: int| 0 <= i < p.corners().len() ==> p.corners()[i] == Side::On,
    ensures
        clip_defined(p),
        clip_of(p) == Some(Section { shape: corner_names(p), merge: false }),
{
    reveal_with_fuel(hits, 7);
    reveal_with_fuel(point_hits, 7);
    let s = p.corners();
    assert(s[0] == Side::On);
    if s.len() > 1 {
        assert(s[1] == Side::On);
    }
    if s.len() > 2 {
        assert(s[2] == Side::On);
    }
    if s.len() > 3 {
        assert(s[3] == Side::On);
    }
}

/// A triangle with vertex `k` in the hyperplane and the other two strictly
/// on one side of it touches the hyperplane in that vertex alone.
pub proof fn lemma_triangle_touches(a: Side, b: Side, c: Side, k: usize, t: Side)
    requires
        k < 3,
        strict(t),
        Primitive::Triangle(a, b, c).corners()[k as int] == Side::On,
        forall|i: int| 0 <= i < 3 && i != k ==> Primitive::Triangle(a, b, c).corners()[i] == t,
    ensures
        clip_defined(Primitive::Triangle(a, b, c)),
        clip_of(Primitive::Triangle(a, b, c)) == Some(
            Section { shape: Primitive::Point(ClipPoint::Corner(k)), merge: false },
        ),
{
    reveal_with_fuel(hits, 4);
    reveal_with_fuel(point_hits, 4);
    reveal_with_fuel(dedup, 4);
    reveal_with_fuel(mem, 4);
    let s = Primitive::Triangle(a, b, c).corners();
    assert(s[0] == a && s[1] == b && s[2] == c);
    if k == 0 {
        assert(s[1] == t && s[2] == t);
    } else if k == 1 {
        assert(s[0] == t && s[2] == t);
    } else {
        assert(s[0] == t && s[1] == t);
    }
}

/// A triangle with vertex `k` in the hyperplane and the other two strictly
/// on opposite sides of it is cut in a line from that vertex to the
/// crossing of the opposite edge.
pub proof fn lemma_triangle_through_vertex(a: Side, b: Side, c: Side, k: usize)
    requires
        k < 3,
        Primitive::Triangle(a, b, c).corners()[k as int] == Side::On,
        opposite(
            Primitive::Triangle(a, b, c).corners()[((k + 1) % 3) as int],
            Primitive::Triangle(a, b, c).corners()[((k + 2) % 3) as int],
        ),
    ensures
        clip_of(Primitive::Triangle(a, b, c)) matches Some(sec) && sec.merge && sec.shape is Line
            && {
            let (x, y) = (sec.shape.corners()[0], sec.shape.corners()[1]);
            let s = Primitive::Triangle(a, b, c).corners();
            (x == ClipPoint::Corner(k) && joins_sides(s, y)) || (y == ClipPoint::Corner(k)
                && joins_sides(s, x))
        },
{
    reveal_with_fuel(hits, 4);
    reveal_with_fuel(first_line, 4);
    reveal_with_fuel(point_hits, 4);
    reveal_with_fuel(dedup, 4);
    reveal_with_fuel(mem, 4);
}

/// A segment whose ends lie strictly on opposite sides of the hyperplane
/// is cut in a single point, the crossing of its edge.
pub proof fn lemma_line_split(a: Side, b: Side)
    requires
        opposite(a, b),
    ensures
        clip_of(Primitive::Line(a, b)) == Some(
            Section { shape: Primitive::Point(ClipPoint::Crossing(0, 1)), merge: false },
        ),
{
}

/// `x` is the crossing of an edge whose ends lie on opposite sides.
pub open spec fn joins_sides(s: Seq<Side>, x: ClipPoint) -> bool {
    match x {
        ClipPoint::Crossing(i, j) => i < s.len() && j < s.len() && opposite(s[i as int], s[j as int]),
        ClipPoint::Corner(_) => false,
    }
}

/// Exactly two of the four vertices lie strictly above the hyperplane and
/// the other two strictly below it.
pub open spec fn two_by_two(a: Side, b: Side, c: Side, d: Side) -> bool {
    &&& strict(a) && strict(b) && strict(c) && strict(d)
    &&& (a == b && c == d && a != c) || (a == c && b == d && a != b) || (a == d && b == c && a
        != b)
}

/// A tetrahedron with two vertices on each side of the hyperplane is cut in
/// a quad whose four points are the crossings of the four edges that join
/// the two sides, in the order in which the edges are cut.
pub proof fn lemma_tetra_two_by_two(a: Side, b: Side, c: Side, d: Side)
    requires
        two_by_two(a, b, c, d),
    ensures
        clip_defined(Primitive::Tetra(a, b, c, d)),
        clip_of(Primitive::Tetra(a, b, c, d)) matches Some(sec) && !sec.merge && sec.shape is Quad
            && forall|k: int|
            0 <= k < 4 ==> joins_sides(
                Primitive::Tetra(a, b, c, d).corners(),
                #[trigger] sec.shape.corners()[k],
            ),
{
    reveal_with_fuel(hits, 7);
}

/// `x` lies in the hyperplane: a corner on it, or the crossing of an edge
/// whose ends lie on opposite sides.
pub open spec fn in_plane(s: Seq<Side>, x: ClipPoint) -> bool {
    match x {
        ClipPoint::Corner(i) => i < s.len() && s[i as int] == Side::On,
        ClipPoint::Crossing(_, _) => joins_sides(s, x),
    }
}

/// Every point of what a clip leaves of `p` lies in the hyperplane.
pub open spec fn cut_in_plane(p: Primitive<Side>) -> bool {
    clip_of(p) matches Some(sec) ==> forall|k: int|
        0 <= k < sec.shape.corners().len() ==> in_plane(p.corners(), #[trigger] sec.shape.corners()[k])
}

/// What is left of any primitive lies in the hyperplane.
pub proof fn lemma_cut_in_plane(p: Primitive<Side>)
    ensures
        cut_in_plane(p),
{
    match p {
        Primitive::Point(a) => {},
        Primitive::Line(a, b) => {},
        Primitive::Triangle(a, b, c) => lemma_triangle_cut_in_plane(a, b, c),
        Primitive::Quad(a, b, c, d) => lemma_quad_cut_in_plane(a, b, c, d),
        Primitive::Tetra(a, b, c, d) => lemma_tetra_cut_in_plane(a, b, c, d),
    }
}

proof fn lemma_triangle_cut_in_plane(a: Side, b: Side, c: Side)
    ensures
        cut_in_plane(Primitive::Triangle(a, b, c)),
{
    reveal_with_fuel(hits, 4);
    reveal_with_fuel(first_line, 4);
    reveal_with_fuel(point_hits, 4);
    reveal_with_fuel(dedup, 4);
    reveal_with_fuel(mem, 4);
}

#[verifier::spinoff_prover]
#[verifier::rlimit(100)]
proof fn lemma_quad_cut_in_plane(a: Side, b: Side, c: Side, d: Side)
    ensures
        cut_in_plane(Primitive::Quad(a, b, c, d)),
{
    reveal_with_fuel(hits, 5);
    reveal_with_fuel(first_line, 4);
    reveal_with_fuel(point_hits, 5);
    reveal_with_fuel(dedup, 5);
    reveal_with_fuel(mem, 5);
    match b {
        Side::Below => {},
        Side::On => {},
        Side::Above => {},
    }
}

#[verifier::spinoff_prover]
#[verifier::rlimit(100)]
proof fn lemma_tetra_cut_in_plane(a: Side, b: Side, c: Side, d: Side)
    ensures
        cut_in_plane(Primitive::Tetra(a, b, c, d)),
{
    reveal_with_fuel(hits, 7);
    reveal_with_fuel(first_line, 6);
    reveal_with_fuel(point_hits, 7);
    match b {
        Side::Below => {},
        Side::On => {},
        Side::Above => {},
    }
}

} // verus!

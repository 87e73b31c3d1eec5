//! Cutting a primitive by a hyperplane.
//!
//! The caller classifies every vertex by its signed distance `d` to the
//! hyperplane: `On` where `|d|` is below the plane-membership tolerance,
//! otherwise `Above` or `Below` by the sign of `d`.  From those sides alone
//! the clipper decides what survives: nothing, or a primitive made of
//! corners of the input and of crossings, the points where an edge with
//! ends on opposite sides meets the hyperplane.
//!
//! Each edge is cut on its own (see [`edge_hit`]); a triangle, quad or
//! tetrahedron is then judged by how many of its edges were hit, and by
//! whether those hits are points or whole edges.  Some patterns of hits have
//! no rule; the clipper refuses them (see [`Outcome::Impossible`]).
use vstd::prelude::*;
use crate::primitive::Primitive;

verus! {

/// Where a vertex lies with respect to the cutting hyperplane.
#[derive(Clone, Copy, Debug, PartialEq, Eq, Structural)]
pub enum Side {
    Below,
    On,
    Above,
}

/// A point of a clipped primitive, named by where it comes from.
#[derive(Clone, Copy, Debug, PartialEq, Eq, Structural)]
pub enum ClipPoint {
    /// The vertex at this position of the input primitive.
    Corner(usize),
    /// The point where the edge from the first vertex to the second meets
    /// the hyperplane.  The order is the one in which the edge was cut, and
    /// is the order of interpolation.
    Crossing(usize, usize),
}

/// A clipped primitive.  Where `merge` holds, the points of `shape` are
/// distinct crossings that may lie at one position; the caller compares
/// their positions and settles the shape with [`Section::resolve`].
#[derive(Clone, Copy, Debug, PartialEq, Eq)]
pub struct Section<P> {
    pub shape: Primitive<P>,
    pub merge: bool,
}

impl<P: Copy> Section<P> {
    /// The primitive that stands for this section, given whether the
    /// positions of its points all coincide (consecutive points compared).
    /// A mergeable section whose points coincide becomes its first point.
    pub fn resolve(self, coincident: bool) -> (r: Primitive<P>)
        ensures
            r == self.resolved(coincident),
    {
        if self.merge && coincident {
            match self.shape {
                Primitive::Point(a) => Primitive::Point(a),
                Primitive::Line(a, _) => Primitive::Point(a),
                Primitive::Triangle(a, _, _) => Primitive::Point(a),
                Primitive::Quad(a, _, _, _) => Primitive::Point(a),
                Primitive::Tetra(a, _, _, _) => Primitive::Point(a),
            }
        } else {
            self.shape
        }
    }
}

impl<P> Section<P> {
    pub open spec fn resolved(self, coincident: bool) -> Primitive<P> {
        if self.merge && coincident {
            Primitive::Point(self.shape.corners()[0])
        } else {
            self.shape
        }
    }
}

/// What the case analysis of a clip arrives at.
#[derive(Clone, Copy, Debug, PartialEq, Eq)]
pub enum Outcome {
    /// The primitive misses the hyperplane.
    Empty,
    /// What is left of the primitive in the hyperplane.
    Cut(Section<ClipPoint>),
    /// The hits on the edges form a pattern that has no rule: clipping such
    /// a primitive is a fault of the caller's geometry.
    Impossible,
}

/// A section that is exactly `shape`, with nothing left to merge.
pub open spec fn exact(shape: Primitive<ClipPoint>) -> Outcome {
    Outcome::Cut(Section { shape, merge: false })
}

/// The cut of the edge from vertex `i` (on side `si`) to vertex `j` (on
/// side `sj`): the whole edge where both ends lie in the hyperplane, the end
/// that lies in it where only one does, nothing where both lie strictly on
/// one side, and the crossing where they lie on opposite sides.
pub open spec fn edge_cut(i: usize, si: Side, j: usize, sj: Side) -> Option<Primitive<ClipPoint>> {
    if si == Side::On && sj == Side::On {
        Some(Primitive::Line(ClipPoint::Corner(i), ClipPoint::Corner(j)))
    } else if si == Side::On {
        Some(Primitive::Point(ClipPoint::Corner(i)))
    } else if sj == Side::On {
        Some(Primitive::Point(ClipPoint::Corner(j)))
    } else if si == sj {
        None
    } else {
        Some(Primitive::Point(ClipPoint::Crossing(i, j)))
    }
}

/// The contents of an option, as a sequence of at most one element.
pub open spec fn opt_seq<T>(o: Option<T>) -> Seq<T> {
    match o {
        Some(t) => seq![t],
        None => seq![],
    }
}

/// The edges of a primitive, in the order in which they are cut: around
/// the loop for a triangle or a quad; for a tetrahedron the loop 0-1-2-3
/// first, then the two diagonals 0-2 and 1-3.
pub open spec fn edges<V>(p: Primitive<V>) -> Seq<(usize, usize)> {
    match p {
        Primitive::Point(..) => seq![],
        Primitive::Line(..) => seq![(0usize, 1usize)],
        Primitive::Triangle(..) => seq![(0usize, 1usize), (1, 2), (2, 0)],
        Primitive::Quad(..) => seq![(0usize, 1usize), (1, 2), (2, 3), (3, 0)],
        Primitive::Tetra(..) => seq![(0usize, 1usize), (1, 2), (2, 3), (0, 3), (0, 2), (1, 3)],
    }
}

/// The hits of the edges `e` of a primitive with vertex sides `s`, in the
/// order of `e`; edges that are not hit leave no entry.
pub open spec fn hits(s: Seq<Side>, e: Seq<(usize, usize)>) -> Seq<Primitive<ClipPoint>>
    decreases e.len(),
{
    if e.len() == 0 {
        seq![]
    } else {
        let (i, j) = e.last();
        hits(s, e.drop_last()) + opt_seq(edge_cut(i, s[i as int], j, s[j as int]))
    }
}

/// The first whole edge among the hits, if any.
pub open spec fn first_line(h: Seq<Primitive<ClipPoint>>) -> Option<Primitive<ClipPoint>>
    decreases h.len(),
{
    if h.len() == 0 {
        None
    } else if h[0] is Line {
        Some(h[0])
    } else {
        first_line(h.subrange(1, h.len() as int))
    }
}

/// The points among the hits, in order.
pub open spec fn point_hits(h: Seq<Primitive<ClipPoint>>) -> Seq<ClipPoint>
    decreases h.len(),
{
    if h.len() == 0 {
        seq![]
    } else {
        let rest = point_hits(h.drop_last());
        match h.last() {
            Primitive::Point(a) => rest.push(a),
            _ => rest,
        }
    }
}

/// Whether `x` occurs in `s`.
pub open spec fn mem(s: Seq<ClipPoint>, x: ClipPoint) -> bool
    decreases s.len(),
{
    s.len() > 0 && (s.last() == x || mem(s.drop_last(), x))
}

/// The points of `s` without repeats, each where it first occurs.
pub open spec fn dedup(s: Seq<ClipPoint>) -> Seq<ClipPoint>
    decreases s.len(),
{
    if s.len() == 0 {
        seq![]
    } else {
        let r = dedup(s.drop_last());
        if mem(r, s.last()) {
            r
        } else {
            r.push(s.last())
        }
    }
}

/// Hits that are all points: where they name one point, that point; where
/// they name two, the line between them, whose ends may still merge.  A
/// flat convex polygon meets a hyperplane in a segment at most, so hits
/// that name three points or more, or that mix points and whole edges,
/// have no rule.
pub open spec fn points_outcome(h: Seq<Primitive<ClipPoint>>) -> Outcome {
    let d = dedup(point_hits(h));
    if point_hits(h).len() != h.len() {
        Outcome::Impossible
    } else if d.len() == 1 {
        exact(Primitive::Point(d[0]))
    } else if d.len() == 2 {
        Outcome::Cut(Section { shape: Primitive::Line(d[0], d[1]), merge: true })
    } else {
        Outcome::Impossible
    }
}

/// A single whole edge among the hits is what survives.
pub open spec fn line_outcome(h: Seq<Primitive<ClipPoint>>) -> Outcome {
    match first_line(h) {
        Some(l) => exact(l),
        None => Outcome::Impossible,
    }
}

/// A triangle: no hits miss it; three whole edges keep the triangle; one
/// whole edge among the hits is what survives; otherwise the points hit
/// make a point or a line.
pub open spec fn triangle_outcome(h: Seq<Primitive<ClipPoint>>) -> Outcome {
    if h.len() == 0 {
        Outcome::Empty
    } else if h.len() == 1 {
        exact(h[0])
    } else if h.len() == 3 && h[0] is Line && h[1] is Line && h[2] is Line {
        exact(
            Primitive::Triangle(ClipPoint::Corner(0), ClipPoint::Corner(1), ClipPoint::Corner(2)),
        )
    } else if h.len() == 3 && first_line(h) is Some {
        exact(first_line(h)->0)
    } else {
        points_outcome(h)
    }
}

/// A quad: no hits miss it; four whole edges keep the quad, which then lies
/// in the hyperplane; among three hits a whole edge survives; otherwise the
/// points hit make a point or a line.
pub open spec fn quad_outcome(h: Seq<Primitive<ClipPoint>>) -> Outcome {
    if h.len() == 0 {
        Outcome::Empty
    } else if h.len() == 4 && h[0] is Line && h[1] is Line && h[2] is Line && h[3] is Line {
        exact(
            Primitive::Quad(
                ClipPoint::Corner(0),
                ClipPoint::Corner(1),
                ClipPoint::Corner(2),
                ClipPoint::Corner(3),
            ),
        )
    } else if h.len() == 3 && first_line(h) is Some {
        exact(first_line(h)->0)
    } else {
        points_outcome(h)
    }
}

/// A tetrahedron: no hits miss it; three point hits make a point or a
/// triangle; four point hits make a quad, in the order of the edges; among
/// five hits the whole edge survives; six hits keep the tetrahedron where
/// all are whole edges, and make a triangle where three are points.
pub open spec fn tetra_outcome(h: Seq<Primitive<ClipPoint>>) -> Outcome {
    if h.len() == 0 {
        Outcome::Empty
    } else if h.len() == 3 {
        match (h[0], h[1], h[2]) {
            (Primitive::Point(a), Primitive::Point(b), Primitive::Point(c)) => if a == b && b
                == c {
                exact(Primitive::Point(a))
            } else {
                Outcome::Cut(Section { shape: Primitive::Triangle(a, b, c), merge: true })
            },
            _ => Outcome::Impossible,
        }
    } else if h.len() == 4 {
        match (h[0], h[1], h[2], h[3]) {
            (
                Primitive::Point(a),
                Primitive::Point(b),
                Primitive::Point(c),
                Primitive::Point(d),
            ) => exact(Primitive::Quad(a, b, c, d)),
            _ => Outcome::Impossible,
        }
    } else if h.len() == 5 {
        line_outcome(h)
    } else if h.len() == 6 {
        let pts = point_hits(h);
        if pts.len() == 0 {
            exact(
                Primitive::Tetra(
                    ClipPoint::Corner(0),
                    ClipPoint::Corner(1),
                    ClipPoint::Corner(2),
                    ClipPoint::Corner(3),
                ),
            )
        } else if pts.len() == 3 {
            exact(Primitive::Triangle(pts[0], pts[1], pts[2]))
        } else {
            Outcome::Impossible
        }
    } else {
        Outcome::Impossible
    }
}

/// The outcome of clipping a primitive whose vertices lie on sides `p`.
pub open spec fn outcome(p: Primitive<Side>) -> Outcome {
    let h = hits(p.corners(), edges(p));
    match p {
        Primitive::Point(a) => if a == Side::On {
            exact(Primitive::Point(ClipPoint::Corner(0)))
        } else {
            Outcome::Empty
        },
        Primitive::Line(..) => match edge_cut(0, p.corners()[0], 1, p.corners()[1]) {
            Some(c) => exact(c),
            None => Outcome::Empty,
        },
        Primitive::Triangle(..) => triangle_outcome(h),
        Primitive::Quad(..) => quad_outcome(h),
        Primitive::Tetra(..) => tetra_outcome(h),
    }
}

/// Whether the clip of `p` follows one of the rules.
pub open spec fn clip_defined(p: Primitive<Side>) -> bool {
    !(outcome(p) is Impossible)
}

/// The clip of `p`, where it is defined.
pub open spec fn clip_of(p: Primitive<Side>) -> Option<Section<ClipPoint>> {
    match outcome(p) {
        Outcome::Cut(s) => Some(s),
        _ => None,
    }
}

/// The cut of a single edge.
pub fn edge_hit(i: usize, si: Side, j: usize, sj: Side) -> (r: Option<Primitive<ClipPoint>>)
    ensures
        r == edge_cut(i, si, j, sj),
{
    if si == Side::On && sj == Side::On {
        Some(Primitive::Line(ClipPoint::Corner(i), ClipPoint::Corner(j)))
    } else if si == Side::On {
        Some(Primitive::Point(ClipPoint::Corner(i)))
    } else if sj == Side::On {
        Some(Primitive::Point(ClipPoint::Corner(j)))
    } else if si == sj {
        None
    } else {
        Some(Primitive::Point(ClipPoint::Crossing(i, j)))
    }
}

fn push_hit(h: &mut Vec<Primitive<ClipPoint>>, i: usize, si: Side, j: usize, sj: Side)
    ensures
        final(h)@ == old(h)@ + opt_seq(edge_cut(i, si, j, sj)),
{
    match edge_hit(i, si, j, sj) {
        Some(c) => {
            h.push(c);
        },
        None => {},
    }
    assert(final(h)@ =~= old(h)@ + opt_seq(edge_cut(i, si, j, sj)));
}

fn find_line(h: &Vec<Primitive<ClipPoint>>) -> (r: Option<Primitive<ClipPoint>>)
    ensures
        r == first_line(h@),
{
    let mut k: usize = 0;
    assert(h@.subrange(0, h@.len() as int) =~= h@);
    while k < h.len()
        invariant
            k <= h@.len(),
            first_line(h@) == first_line(h@.subrange(k as int, h@.len() as int)),
        decreases h.len() - k,
    {
        proof {
            let rest = h@.subrange(k as int, h@.len() as int);
            assert(rest.subrange(1, rest.len() as int) =~= h@.subrange(k + 1, h@.len() as int));
        }
        if let Primitive::Line(_, _) = h[k] {
            return Some(h[k]);
        }
        k = k + 1;
    }
    None
}

fn collect_points(h: &Vec<Primitive<ClipPoint>>) -> (r: Vec<ClipPoint>)
    ensures
        r@ == point_hits(h@),
{
    let mut r: Vec<ClipPoint> = Vec::new();
    let mut k: usize = 0;
    while k < h.len()
        invariant
            k <= h@.len(),
            r@ == point_hits(h@.subrange(0, k as int)),
        decreases h.len() - k,
    {
        assert(h@.subrange(0, k + 1).drop_last() =~= h@.subrange(0, k as int));
        if let Primitive::Point(a) = h[k] {
            r.push(a);
        }
        k = k + 1;
    }
    assert(h@.subrange(0, h@.len() as int) =~= h@);
    r
}

fn is_line(p: &Primitive<ClipPoint>) -> (r: bool)
    ensures
        r == p is Line,
{
    match p {
        Primitive::Line(..) => true,
        _ => false,
    }
}

fn exact_cut(shape: Primitive<ClipPoint>) -> (r: Outcome)
    ensures
        r == exact(shape),
{
    Outcome::Cut(Section { shape, merge: false })
}

fn contains(v: &Vec<ClipPoint>, x: ClipPoint) -> (r: bool)
    ensures
        r == mem(v@, x),
{
    let mut found = false;
    let mut k: usize = 0;
    while k < v.len()
        invariant
            k <= v@.len(),
            found == mem(v@.subrange(0, k as int), x),
        decreases v.len() - k,
    {
        assert(v@.subrange(0, k + 1).drop_last() =~= v@.subrange(0, k as int));
        found = found || v[k] == x;
        k = k + 1;
    }
    assert(v@.subrange(0, v@.len() as int) =~= v@);
    found
}

fn distinct(v: &Vec<ClipPoint>) -> (r: Vec<ClipPoint>)
    ensures
        r@ == dedup(v@),
{
    let mut r: Vec<ClipPoint> = Vec::new();
    let mut k: usize = 0;
    while k < v.len()
        invariant
            k <= v@.len(),
            r@ == dedup(v@.subrange(0, k as int)),
        decreases v.len() - k,
    {
        assert(v@.subrange(0, k + 1).drop_last() =~= v@.subrange(0, k as int));
        if !contains(&r, v[k]) {
            r.push(v[k]);
        }
        k = k + 1;
    }
    assert(v@.subrange(0, v@.len() as int) =~= v@);
    r
}

fn points_of(h: &Vec<Primitive<ClipPoint>>) -> (r: Outcome)
    ensures
        r == points_outcome(h@),
{
    let pts = collect_points(h);
    if pts.len() != h.len() {
        return Outcome::Impossible;
    }
    let d = distinct(&pts);
    if d.len() == 1 {
        exact_cut(Primitive::Point(d[0]))
    } else if d.len() == 2 {
        Outcome::Cut(Section { shape: Primitive::Line(d[0], d[1]), merge: true })
    } else {
        Outcome::Impossible
    }
}

fn line_of(h: &Vec<Primitive<ClipPoint>>) -> (r: Outcome)
    ensures
        r == line_outcome(h@),
{
    match find_line(h) {
        Some(l) => exact_cut(l),
        None => Outcome::Impossible,
    }
}

fn clip_point(s: Side) -> (r: Outcome)
    ensures
        r == outcome(Primitive::Point(s)),
{
    if s == Side::On {
        exact_cut(Primitive::Point(ClipPoint::Corner(0)))
    } else {
        Outcome::Empty
    }
}

fn clip_line(a: Side, b: Side) -> (r: Outcome)
    ensures
        r == outcome(Primitive::Line(a, b)),
{
    match edge_hit(0, a, 1, b) {
        Some(c) => exact_cut(c),
        None => Outcome::Empty,
    }
}

fn clip_triangle(a: Side, b: Side, c: Side) -> (r: Outcome)
    ensures
        r == outcome(Primitive::Triangle(a, b, c)),
{
    let ghost p = Primitive::Triangle(a, b, c);
    let mut h: Vec<Primitive<ClipPoint>> = Vec::new();
    push_hit(&mut h, 0, a, 1, b);
    push_hit(&mut h, 1, b, 2, c);
    push_hit(&mut h, 2, c, 0, a);
    proof {
        reveal_with_fuel(hits, 4);
        assert(h@ =~= hits(p.corners(), edges(p)));
    }
    if h.len() == 0 {
        Outcome::Empty
    } else if h.len() == 1 {
        exact_cut(h[0])
    } else if h.len() == 3 && is_line(&h[0]) && is_line(&h[1]) && is_line(&h[2]) {
        exact_cut(
            Primitive::Triangle(ClipPoint::Corner(0), ClipPoint::Corner(1), ClipPoint::Corner(2)),
        )
    } else {
        match find_line(&h) {
            Some(l) if h.len() == 3 => exact_cut(l),
            _ => points_of(&h),
        }
    }
}

fn clip_quad(a: Side, b: Side, c: Side, d: Side) -> (r: Outcome)
    ensures
        r == outcome(Primitive::Quad(a, b, c, d)),
{
    let ghost p = Primitive::Quad(a, b, c, d);
    let mut h: Vec<Primitive<ClipPoint>> = Vec::new();
    push_hit(&mut h, 0, a, 1, b);
    push_hit(&mut h, 1, b, 2, c);
    push_hit(&mut h, 2, c, 3, d);
    push_hit(&mut h, 3, d, 0, a);
    proof {
        reveal_with_fuel(hits, 5);
        assert(h@ =~= hits(p.corners(), edges(p)));
    }
    if h.len() == 0 {
        Outcome::Empty
    } else if h.len() == 4 && is_line(&h[0]) && is_line(&h[1]) && is_line(&h[2]) && is_line(
        &h[3],
    ) {
        exact_cut(
            Primitive::Quad(
                ClipPoint::Corner(0),
                ClipPoint::Corner(1),
                ClipPoint::Corner(2),
                ClipPoint::Corner(3),
            ),
        )
    } else {
        match find_line(&h) {
            Some(l) if h.len() == 3 => exact_cut(l),
            _ => points_of(&h),
        }
    }
}

fn clip_tetra(a: Side, b: Side, c: Side, d: Side) -> (r: Outcome)
    ensures
        r == outcome(Primitive::Tetra(a, b, c, d)),
{
    let ghost p = Primitive::Tetra(a, b, c, d);
    let mut h: Vec<Primitive<ClipPoint>> = Vec::new();
    push_hit(&mut h, 0, a, 1, b);
    push_hit(&mut h, 1, b, 2, c);
    push_hit(&mut h, 2, c, 3, d);
    push_hit(&mut h, 0, a, 3, d);
    push_hit(&mut h, 0, a, 2, c);
    push_hit(&mut h, 1, b, 3, d);
    proof {
        reveal_with_fuel(hits, 7);
        assert(h@ =~= hits(p.corners(), edges(p)));
    }
    if h.len() == 0 {
        Outcome::Empty
    } else if h.len() == 3 {
        match (h[0], h[1], h[2]) {
            (Primitive::Point(x), Primitive::Point(y), Primitive::Point(z)) => if x == y && y
                == z {
                exact_cut(Primitive::Point(x))
            } else {
                Outcome::Cut(Section { shape: Primitive::Triangle(x, y, z), merge: true })
            },
            _ => Outcome::Impossible,
        }
    } else if h.len() == 4 {
        match (h[0], h[1], h[2], h[3]) {
            (
                Primitive::Point(w),
                Primitive::Point(x),
                Primitive::Point(y),
                Primitive::Point(z),
            ) => exact_cut(Primitive::Quad(w, x, y, z)),
            _ => Outcome::Impossible,
        }
    } else if h.len() == 5 {
        line_of(&h)
    } else if h.len() == 6 {
        let pts = collect_points(&h);
        if pts.len() == 0 {
            exact_cut(
                Primitive::Tetra(
                    ClipPoint::Corner(0),
                    ClipPoint::Corner(1),
                    ClipPoint::Corner(2),
                    ClipPoint::Corner(3),
                ),
            )
        } else if pts.len() == 3 {
            exact_cut(Primitive::Triangle(pts[0], pts[1], pts[2]))
        } else {
            Outcome::Impossible
        }
    } else {
        Outcome::Impossible
    }
}

impl Primitive<Side> {
    /// The outcome of the case analysis for a primitive whose vertices lie
    /// on these sides.
    pub fn clip_outcome(&self) -> (r: Outcome)
        ensures
            r == outcome(*self),
    {
        match *self {
            Primitive::Point(a) => clip_point(a),
            Primitive::Line(a, b) => clip_line(a, b),
            Primitive::Triangle(a, b, c) => clip_triangle(a, b, c),
            Primitive::Quad(a, b, c, d) => clip_quad(a, b, c, d),
            Primitive::Tetra(a, b, c, d) => clip_tetra(a, b, c, d),
        }
    }

    /// Whether clipping a primitive with these vertex sides follows one of
    /// the rules.  Where it does not, [`Primitive::intersect`] must not be
    /// called: the geometry is at fault.
    pub fn clips_cleanly(&self) -> (r: bool)
        ensures
            r == clip_defined(*self),
    {
        match self.clip_outcome() {
            Outcome::Impossible => false,
            _ => true,
        }
    }

    /// What is left of a primitive with these vertex sides in the
    /// hyperplane: `None` where it misses the hyperplane.
    pub fn intersect(&self) -> (r: Option<Section<ClipPoint>>)
        requires
            clip_defined(*self),
        ensures
            r == clip_of(*self),
    {
        match self.clip_outcome() {
            Outcome::Cut(s) => Some(s),
            _ => None,
        }
    }
}

} // verus!

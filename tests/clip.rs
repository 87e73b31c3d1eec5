use graph4d::clip::{edge_hit, ClipPoint, Outcome, Section, Side};
use graph4d::primitive::Primitive;

use ClipPoint::{Corner, Crossing};
use Side::{Above, Below, On};

fn exact(shape: Primitive<ClipPoint>) -> Option<Section<ClipPoint>> {
    Some(Section { shape, merge: false })
}

fn clip(p: Primitive<Side>) -> Option<Section<ClipPoint>> {
    assert!(p.clips_cleanly());
    p.intersect()
}

#[test]
fn point_on_plane_is_kept() {
    assert_eq!(clip(Primitive::Point(On)), exact(Primitive::Point(Corner(0))));
}

#[test]
fn point_off_plane_is_dropped() {
    assert_eq!(clip(Primitive::Point(Above)), None);
    assert_eq!(clip(Primitive::Point(Below)), None);
}

#[test]
fn line_in_plane_is_kept() {
    assert_eq!(clip(Primitive::Line(On, On)), exact(Primitive::Line(Corner(0), Corner(1))));
}

#[test]
fn line_touching_plane_gives_its_end() {
    assert_eq!(clip(Primitive::Line(On, Above)), exact(Primitive::Point(Corner(0))));
    assert_eq!(clip(Primitive::Line(Below, On)), exact(Primitive::Point(Corner(1))));
}

#[test]
fn line_on_one_side_misses() {
    assert_eq!(clip(Primitive::Line(Above, Above)), None);
    assert_eq!(clip(Primitive::Line(Below, Below)), None);
}

#[test]
fn line_split_gives_crossing() {
    assert_eq!(clip(Primitive::Line(Below, Above)), exact(Primitive::Point(Crossing(0, 1))));
    assert_eq!(clip(Primitive::Line(Above, Below)), exact(Primitive::Point(Crossing(0, 1))));
}

#[test]
fn triangle_on_one_side_misses() {
    assert_eq!(clip(Primitive::Triangle(Above, Above, Above)), None);
    assert_eq!(clip(Primitive::Triangle(Below, Below, Below)), None);
}

#[test]
fn triangle_touching_in_a_vertex_gives_that_vertex() {
    assert_eq!(clip(Primitive::Triangle(On, Above, Above)), exact(Primitive::Point(Corner(0))));
    assert_eq!(clip(Primitive::Triangle(Below, On, Below)), exact(Primitive::Point(Corner(1))));
    assert_eq!(clip(Primitive::Triangle(Above, Above, On)), exact(Primitive::Point(Corner(2))));
}

#[test]
fn triangle_cut_through_gives_mergeable_line() {
    assert_eq!(
        clip(Primitive::Triangle(Above, Below, Below)),
        Some(Section { shape: Primitive::Line(Crossing(0, 1), Crossing(2, 0)), merge: true })
    );
}

#[test]
fn triangle_with_edge_in_plane_gives_that_edge() {
    assert_eq!(clip(Primitive::Triangle(Above, On, On)), exact(Primitive::Line(Corner(1), Corner(2))));
    assert_eq!(clip(Primitive::Triangle(On, Below, On)), exact(Primitive::Line(Corner(2), Corner(0))));
}

#[test]
fn triangle_in_plane_is_kept() {
    assert_eq!(
        clip(Primitive::Triangle(On, On, On)),
        exact(Primitive::Triangle(Corner(0), Corner(1), Corner(2)))
    );
}

fn mergeable_line(a: ClipPoint, b: ClipPoint) -> Option<Section<ClipPoint>> {
    Some(Section { shape: Primitive::Line(a, b), merge: true })
}

#[test]
fn triangle_through_vertex_and_across_gives_line() {
    assert_eq!(clip(Primitive::Triangle(On, Above, Below)), mergeable_line(Corner(0), Crossing(1, 2)));
    assert_eq!(clip(Primitive::Triangle(Below, On, Above)), mergeable_line(Corner(1), Crossing(2, 0)));
    assert_eq!(clip(Primitive::Triangle(Above, Below, On)), mergeable_line(Crossing(0, 1), Corner(2)));
}

#[test]
fn quad_in_plane_is_kept() {
    assert_eq!(
        clip(Primitive::Quad(On, On, On, On)),
        exact(Primitive::Quad(Corner(0), Corner(1), Corner(2), Corner(3)))
    );
}

#[test]
fn quad_cut_through_gives_mergeable_line() {
    assert_eq!(
        clip(Primitive::Quad(Above, Above, Below, Below)),
        Some(Section { shape: Primitive::Line(Crossing(1, 2), Crossing(3, 0)), merge: true })
    );
}

#[test]
fn quad_cases() {
    assert_eq!(clip(Primitive::Quad(Above, Above, Above, Above)), None);
    assert_eq!(clip(Primitive::Quad(On, Above, Above, Above)), exact(Primitive::Point(Corner(0))));
    assert_eq!(clip(Primitive::Quad(On, On, Above, Above)), exact(Primitive::Line(Corner(0), Corner(1))));
    assert_eq!(clip(Primitive::Quad(On, Above, Above, Below)), mergeable_line(Corner(0), Crossing(2, 3)));
}

#[test]
fn quad_touching_two_opposite_corners_gives_diagonal() {
    assert_eq!(clip(Primitive::Quad(On, Above, On, Above)), mergeable_line(Corner(0), Corner(2)));
    assert_eq!(clip(Primitive::Quad(On, Above, On, Below)), mergeable_line(Corner(0), Corner(2)));
    assert_eq!(clip(Primitive::Quad(Below, On, Above, On)), mergeable_line(Corner(1), Corner(3)));
}

#[test]
fn quad_kept_whole_only_in_plane() {
    // four hits that are not all whole edges never keep the quad
    assert!(!Primitive::Quad(On, Above, Below, Above).clips_cleanly());
    assert!(!Primitive::Quad(Above, Below, Above, Below).clips_cleanly());
    assert!(!Primitive::Quad(On, On, Above, Below).clips_cleanly());
    assert!(!Primitive::Quad(On, On, On, Above).clips_cleanly());
    assert_eq!(Primitive::Quad(On, Above, Below, Above).clip_outcome(), Outcome::Impossible);
}

#[test]
fn tetra_two_by_two_gives_quad_of_crossings() {
    assert_eq!(
        clip(Primitive::Tetra(Above, Above, Below, Below)),
        exact(Primitive::Quad(Crossing(1, 2), Crossing(0, 3), Crossing(0, 2), Crossing(1, 3)))
    );
    assert_eq!(
        clip(Primitive::Tetra(Above, Below, Above, Below)),
        exact(Primitive::Quad(Crossing(0, 1), Crossing(1, 2), Crossing(2, 3), Crossing(0, 3)))
    );
}

#[test]
fn tetra_three_by_one_gives_mergeable_triangle() {
    assert_eq!(
        clip(Primitive::Tetra(Above, Below, Below, Below)),
        Some(Section {
            shape: Primitive::Triangle(Crossing(0, 1), Crossing(0, 3), Crossing(0, 2)),
            merge: true
        })
    );
}

#[test]
fn tetra_cases() {
    assert_eq!(clip(Primitive::Tetra(Below, Below, Below, Below)), None);
    assert_eq!(clip(Primitive::Tetra(Above, On, Above, Above)), exact(Primitive::Point(Corner(1))));
    assert_eq!(clip(Primitive::Tetra(On, On, Above, Above)), exact(Primitive::Line(Corner(0), Corner(1))));
    assert_eq!(
        clip(Primitive::Tetra(On, On, On, Above)),
        exact(Primitive::Triangle(Corner(2), Corner(0), Corner(1)))
    );
    assert_eq!(
        clip(Primitive::Tetra(On, On, On, On)),
        exact(Primitive::Tetra(Corner(0), Corner(1), Corner(2), Corner(3)))
    );
}

#[test]
fn tetra_faulty_patterns() {
    assert!(!Primitive::Tetra(On, Above, Above, Below).clips_cleanly());
    assert!(!Primitive::Tetra(On, On, Above, Below).clips_cleanly());
    assert!(Primitive::Tetra(On, Below, Below, Below).clips_cleanly());
}

#[test]
fn outcome_names_the_fault() {
    assert_eq!(Primitive::Tetra(On, Above, Above, Below).clip_outcome(), Outcome::Impossible);
    assert_eq!(Primitive::Triangle(Above, Above, Above).clip_outcome(), Outcome::Empty);
}

#[test]
fn resolve_merges_only_when_asked() {
    let s = Section { shape: Primitive::Line(Crossing(0, 1), Crossing(2, 0)), merge: true };
    assert_eq!(s.resolve(true), Primitive::Point(Crossing(0, 1)));
    assert_eq!(s.resolve(false), Primitive::Line(Crossing(0, 1), Crossing(2, 0)));
    let t = Section { shape: Primitive::Line(Corner(1), Corner(2)), merge: false };
    assert_eq!(t.resolve(true), Primitive::Line(Corner(1), Corner(2)));
}

#[test]
fn edge_hit_cases() {
    assert_eq!(edge_hit(2, On, 0, On), Some(Primitive::Line(Corner(2), Corner(0))));
    assert_eq!(edge_hit(2, Above, 0, On), Some(Primitive::Point(Corner(0))));
    assert_eq!(edge_hit(2, Above, 0, Below), Some(Primitive::Point(Crossing(2, 0))));
    assert_eq!(edge_hit(2, Above, 0, Above), None);
}

#[test]
fn map_and_vertices_keep_order() {
    let p = Primitive::Quad(1u32, 2, 3, 4);
    assert_eq!(p.vertices(), vec![1, 2, 3, 4]);
    assert_eq!(p.map(|v| v * 10), Primitive::Quad(10, 20, 30, 40));
    assert_eq!(Primitive::Point(7u8).vertices(), vec![7]);
}

use graph4d::clip::{ClipPoint, Side};
use graph4d::primitive::Primitive;

fn side(d: f64) -> Side {
    if d.abs() < 1e-15 {
        Side::On
    } else if d > 0.0 {
        Side::Above
    } else {
        Side::Below
    }
}

// the point that a clip point names, for corners `p` cut by the hyperplane w = 0
fn place(p: &[[f64; 4]], x: ClipPoint) -> [f64; 4] {
    match x {
        ClipPoint::Corner(i) => p[i],
        ClipPoint::Crossing(i, j) => {
            let (d1, d2) = (p[i][3], p[j][3]);
            let (c1, c2) = (d2 / (d2 - d1), -d1 / (d2 - d1));
            [0, 1, 2, 3].map(|k| p[i][k] * c1 + p[j][k] * c2)
        }
    }
}

fn dist(a: [f64; 4], b: [f64; 4]) -> f64 {
    (0..4).map(|k| (a[k] - b[k]) * (a[k] - b[k])).sum::<f64>().sqrt()
}

#[test]
fn regular_tetrahedron_cut_through_centroid_is_square() {
    let p = [[1.0, 1.0, 0.0, 1.0], [1.0, -1.0, 0.0, -1.0], [-1.0, -1.0, 0.0, 1.0], [-1.0, 1.0, 0.0, -1.0]];
    let sides = Primitive::Tetra(side(p[0][3]), side(p[1][3]), side(p[2][3]), side(p[3][3]));
    assert!(sides.clips_cleanly());
    let sec = sides.intersect().unwrap();
    assert!(!sec.merge);
    let q: Vec<[f64; 4]> = match sec.shape {
        Primitive::Quad(..) => sec.shape.vertices().into_iter().map(|x| place(&p, x)).collect(),
        _ => panic!("expected a quad"),
    };
    for v in &q {
        assert_eq!(v[3], 0.0);
    }
    let edge = dist(q[0], q[1]);
    assert!((edge - 2f64.sqrt()).abs() < 1e-12);
    for k in 1..4 {
        assert!((dist(q[k], q[(k + 1) % 4]) - edge).abs() < 1e-12);
    }
    assert!((dist(q[0], q[2]) - dist(q[1], q[3])).abs() < 1e-12);
}

#[test]
fn segment_across_w_zero_splits_at_midpoint() {
    let p = [[0.0, 0.0, 0.0, -1.0], [0.0, 0.0, 0.0, 1.0]];
    let colors = [[1.0, 0.0, 0.0, 1.0], [0.0, 0.0, 1.0, 0.5]];
    let sec = Primitive::Line(side(p[0][3]), side(p[1][3])).intersect().unwrap();
    let x = match sec.shape {
        Primitive::Point(x) => x,
        _ => panic!("expected a point"),
    };
    assert_eq!(x, ClipPoint::Crossing(0, 1));
    assert_eq!(place(&p, x), [0.0, 0.0, 0.0, 0.0]);
    assert_eq!(place(&[[1.0, 0.0, 0.0, -1.0], [0.0, 0.0, 1.0, 1.0]], x), [0.5, 0.0, 0.5, 0.0]);
    let blend: Vec<f64> = (0..4).map(|k| (colors[0][k] + colors[1][k]) / 2.0).collect();
    assert_eq!(blend, vec![0.5, 0.0, 0.5, 0.75]);
}

#[test]
fn distances_beyond_looser_tolerance_classify_alike() {
    let tight = |d: f64| side(d);
    let loose = |d: f64| {
        if d.abs() < 1e-6 {
            Side::On
        } else if d > 0.0 {
            Side::Above
        } else {
            Side::Below
        }
    };
    let ds = [2e-6, -3e-6, 0.5, -1.0];
    let a = Primitive::Tetra(tight(ds[0]), tight(ds[1]), tight(ds[2]), tight(ds[3]));
    let b = Primitive::Tetra(loose(ds[0]), loose(ds[1]), loose(ds[2]), loose(ds[3]));
    assert_eq!(a, b);
    assert_eq!(a.intersect(), b.intersect());
}

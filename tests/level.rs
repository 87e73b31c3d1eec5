use graph4d::level::{coordinate_spans, face_letter, flat_axis, line_kind, LineKind, NotFlat, ReadState, WallFace};

fn chars(s: &str) -> Vec<char> {
    s.chars().collect()
}

fn fields(s: &str) -> Option<Vec<String>> {
    let c = chars(s);
    coordinate_spans(&c).map(|v| v.iter().map(|&(a, b)| c[a..b].iter().collect()).collect())
}

#[test]
fn reads_four_numbers() {
    assert_eq!(fields("1 2.5 -3 40"), Some(vec!["1".into(), "2.5".into(), "-3".into(), "40".into()]));
    assert_eq!(fields("0\t0  -0.25 7 trailing"), Some(vec!["0".into(), "0".into(), "-0.25".into(), "7".into()]));
    assert_eq!(fields("1\u{3000}2 3 4.5x"), Some(vec!["1".into(), "2".into(), "3".into(), "4.5".into()]));
    assert_eq!(fields("1 2 3 4."), Some(vec!["1".into(), "2".into(), "3".into(), "4".into()]));
}

#[test]
fn rejects_malformed_coordinates() {
    assert_eq!(fields("1 2 3"), None);
    assert_eq!(fields(" 1 2 3 4"), None);
    assert_eq!(fields("1. 2 3 4"), None);
    assert_eq!(fields("1,2 3 4 5"), None);
    assert_eq!(fields("- 1 2 3 4"), None);
    assert_eq!(fields(""), None);
}

#[test]
fn spans_point_into_the_line() {
    assert_eq!(coordinate_spans(&chars("-1 22 3 4")), Some(vec![(0, 2), (3, 5), (6, 7), (8, 9)]));
}

#[test]
fn third_line_kinds() {
    assert_eq!(line_kind(&chars("T")), LineKind::Target);
    assert_eq!(
        line_kind(&chars("xW")),
        LineKind::Walls(vec![WallFace { axis: 0, upper: false }, WallFace { axis: 3, upper: true }])
    );
    assert_eq!(line_kind(&chars("")), LineKind::Walls(vec![]));
    assert_eq!(line_kind(&chars("xq")), LineKind::Invalid);
    assert_eq!(line_kind(&chars("TT")), LineKind::Invalid);
    assert_eq!(face_letter('Y'), Some(WallFace { axis: 1, upper: true }));
    assert_eq!(face_letter('z'), Some(WallFace { axis: 2, upper: false }));
    assert_eq!(face_letter('t'), None);
}

#[test]
fn records_come_in_threes() {
    let s = ReadState::NoLines;
    let (s, r) = s.feed("a");
    assert_eq!(r, None);
    let (s, r) = s.feed("b");
    assert_eq!(r, None);
    let (s, r) = s.feed("c");
    assert_eq!(r, Some(("a", "b", "c")));
    assert_eq!(s, ReadState::NoLines);
    let (s, _) = s.feed("d");
    assert_eq!(s, ReadState::OneLine("d"));
}

#[test]
fn wall_flat_axis() {
    assert_eq!(flat_axis([false, false, false, true]), Ok(3));
    assert_eq!(flat_axis([true, false, false, false]), Ok(0));
    assert_eq!(flat_axis([false, false, false, false]), Err(NotFlat));
    assert_eq!(flat_axis([false, true, false, true]), Err(NotFlat));
}

use graph4d::transform::TransformStack;

#[test]
fn push_and_pop_restore() {
    let mut s = TransformStack::new(1u32);
    s.push_matrix();
    s.set_current(5);
    assert_eq!(s.current(), 5);
    s.push_matrix();
    s.set_current(9);
    s.pop_matrix();
    assert_eq!(s.current(), 5);
    s.pop_matrix();
    assert_eq!(s.current(), 1);
}

#[test]
fn pop_on_empty_keeps_current() {
    let mut s = TransformStack::new(3i64);
    s.set_current(4);
    s.pop_matrix();
    assert_eq!(s.current(), 4);
}

#[test]
fn reset_forgets_saved() {
    let mut s = TransformStack::new(0u8);
    s.push_matrix();
    s.set_current(2);
    s.reset(7);
    s.pop_matrix();
    assert_eq!(s.current(), 7);
}

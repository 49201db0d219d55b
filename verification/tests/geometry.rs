use rtc::geometry::Axis;

#[test]
fn axis_next_steps() {
    assert_eq!(Axis::X.next(), Axis::Y);
    assert_eq!(Axis::Y.next(), Axis::Z);
    assert_eq!(Axis::Z.next(), Axis::X);
}

#[test]
fn axis_next_cycles() {
    assert_eq!(Axis::X.next().next().next(), Axis::X);
    assert_eq!(Axis::Y.next().next().next(), Axis::Y);
    assert_eq!(Axis::Z.next().next().next(), Axis::Z);
}

use micrrou::skipper::Skipper;

#[test]
fn skip_count() {
    let mut skipper = Skipper::new(0.0, 5.5, 11.0);
    assert_eq!(skipper.next(), Some(0.0));
    assert_eq!(skipper.next(), Some(5.5));
    assert_eq!(skipper.next(), None);
}

#[test]
fn skip_count_neg() {
    let mut skipper = Skipper::new(-2, 3, 11);
    assert_eq!(skipper.next(), Some(-2));
    assert_eq!(skipper.next(), Some(1));
    assert_eq!(skipper.next(), Some(4));
    assert_eq!(skipper.next(), Some(7));
    assert_eq!(skipper.next(), None);
}

#[test]
fn skip_count_backwards() {
    let mut skipper = Skipper::new(10, -1, -2);
    assert_eq!(skipper.next(), Some(10));
    assert_eq!(skipper.next(), Some(9));
    assert_eq!(skipper.next(), Some(8));
    assert_eq!(skipper.next(), Some(7));
    assert_eq!(skipper.next(), Some(6));
    assert_eq!(skipper.next(), Some(5));
    assert_eq!(skipper.next(), Some(4));
    assert_eq!(skipper.next(), Some(3));
    assert_eq!(skipper.next(), Some(2));
    assert_eq!(skipper.next(), Some(1));
    assert_eq!(skipper.next(), Some(0));
    assert_eq!(skipper.next(), Some(-1));
    assert_eq!(skipper.next(), None);
}

#[test]
fn skip_with_gaps() {
    let gap = 1;
    let width = 2;
    let end = 9;
    let mut skipper = Skipper::new(-5, gap + width, end + gap);
    assert_eq!(skipper.next(), Some(-5));
    assert_eq!(skipper.next(), Some(-2));
    assert_eq!(skipper.next(), Some(1));
    assert_eq!(skipper.next(), Some(4));
    assert_eq!(skipper.next(), Some(7));
    assert_eq!(skipper.next(), None);
}

#[test]
fn skip_keeps_stepping_after_the_end() {
    let mut skipper = Skipper::new(0i64, 4, 4);
    assert_eq!(skipper.next(), Some(0));
    assert_eq!(skipper.next(), None);
    assert_eq!(skipper.next(), None);
}

#[test]
fn skip_zero_step_repeats_start() {
    let mut skipper = Skipper::new(3i32, 0, 3);
    assert_eq!(skipper.next(), Some(3));
    assert_eq!(skipper.next(), Some(3));
}

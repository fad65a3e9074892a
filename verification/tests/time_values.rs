use sitwatch::time::{Moment, Span, NANOS_PER_SEC};

#[test]
fn a_span_is_its_nanoseconds() {
    assert_eq!(NANOS_PER_SEC, 1_000_000_000);
    assert_eq!(Span::zero().as_nanos(), 0);
    assert_eq!(Span::from_nanos(17).as_nanos(), 17);
    assert_eq!(Span::from_nanos(u128::MAX).as_nanos(), u128::MAX);
    assert_eq!(Span::from_secs(0), Span::zero());
    assert_eq!(Span::from_secs(1).as_nanos(), 1_000_000_000);
    assert_eq!(Span::from_secs(61).as_nanos(), 61_000_000_000);
    assert_eq!(
        Span::from_secs(u64::MAX).as_nanos(),
        18_446_744_073_709_551_615_000_000_000
    );
}

#[test]
fn spans_are_ordered_by_length() {
    assert!(Span::from_secs(1) > Span::from_nanos(999_999_999));
    assert!(Span::from_secs(1) == Span::from_nanos(1_000_000_000));
    assert!(Span::zero() < Span::from_nanos(1));
}

#[test]
fn a_moment_is_its_nanoseconds() {
    assert_eq!(Moment::from_nanos(0).as_nanos(), 0);
    assert_eq!(Moment::from_nanos(123_456).as_nanos(), 123_456);
    assert!(Moment::from_nanos(5) < Moment::from_nanos(6));
}

#[test]
fn the_time_since_an_earlier_moment_is_the_difference() {
    let early = Moment::from_nanos(1_000);
    let late = Moment::from_nanos(4_500);
    assert_eq!(late.since(early), Span::from_nanos(3_500));
    assert_eq!(late.since(late), Span::zero());
    assert_eq!(
        Moment::from_nanos(u128::MAX).since(Moment::from_nanos(0)),
        Span::from_nanos(u128::MAX)
    );
}

#[test]
fn the_time_since_a_later_moment_is_nothing() {
    let early = Moment::from_nanos(1_000);
    let late = Moment::from_nanos(4_500);
    assert_eq!(early.since(late), Span::zero());
    assert_eq!(
        Moment::from_nanos(0).since(Moment::from_nanos(u128::MAX)),
        Span::zero()
    );
}

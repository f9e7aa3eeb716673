use pomodoro::{TimeSpan, Timestamp, NANOS_PER_SEC};

fn span(secs: u64, nanos: u32) -> TimeSpan {
    TimeSpan::new(secs, nanos).unwrap()
}

fn at(secs: u64, nanos: u32) -> Timestamp {
    Timestamp::after_origin(span(secs, nanos))
}

#[test]
fn a_second_has_a_billion_nanoseconds() {
    assert_eq!(NANOS_PER_SEC, 1_000_000_000);
}

#[test]
fn span_takes_nanoseconds_below_one_second() {
    assert!(TimeSpan::new(0, 0).is_some());
    assert!(TimeSpan::new(7, 999_999_999).is_some());
    assert!(TimeSpan::new(u64::MAX, 999_999_999).is_some());
}

#[test]
fn span_refuses_a_whole_second_of_nanoseconds() {
    assert!(TimeSpan::new(0, 1_000_000_000).is_none());
    assert!(TimeSpan::new(7, 1_000_000_001).is_none());
    assert!(TimeSpan::new(0, u32::MAX).is_none());
}

#[test]
fn span_gives_back_its_parts() {
    let s = span(12, 345_678_901);
    assert_eq!(s.as_secs(), 12);
    assert_eq!(s.subsec_nanos(), 345_678_901);
    let whole = TimeSpan::from_secs(90);
    assert_eq!(whole.as_secs(), 90);
    assert_eq!(whole.subsec_nanos(), 0);
    assert_eq!(whole, span(90, 0));
}

#[test]
fn since_subtracts_whole_seconds() {
    let d = at(1065, 0).since(&at(1000, 0));
    assert_eq!(d, TimeSpan::from_secs(65));
}

#[test]
fn since_subtracts_nanoseconds_without_borrow() {
    let d = at(10, 700_000_000).since(&at(4, 200_000_000));
    assert_eq!(d, span(6, 500_000_000));
}

#[test]
fn since_borrows_a_second_where_needed() {
    let d = at(10, 200_000_000).since(&at(4, 700_000_000));
    assert_eq!(d, span(5, 500_000_000));
    let d = at(5, 0).since(&at(4, 999_999_999));
    assert_eq!(d, span(0, 1));
    let d = at(u64::MAX, 0).since(&at(0, 1));
    assert_eq!(d, span(u64::MAX - 1, 999_999_999));
}

#[test]
fn since_the_same_point_is_empty() {
    let d = at(3, 141_592_653).since(&at(3, 141_592_653));
    assert_eq!(d, TimeSpan::from_secs(0));
}

#[test]
fn since_a_later_point_is_empty() {
    assert_eq!(at(4, 0).since(&at(5, 0)), TimeSpan::from_secs(0));
    assert_eq!(at(4, 1).since(&at(4, 2)), TimeSpan::from_secs(0));
    assert_eq!(at(4, 999_999_999).since(&at(5, 0)), TimeSpan::from_secs(0));
    assert_eq!(at(0, 0).since(&at(u64::MAX, 999_999_999)), TimeSpan::from_secs(0));
}

#[test]
fn since_spans_the_whole_clock() {
    let d = at(u64::MAX, 999_999_999).since(&at(0, 0));
    assert_eq!(d, span(u64::MAX, 999_999_999));
}

use process_monitor::clock::{WallTime, NANOS_PER_SEC};

#[test]
fn a_second_holds_a_billion_nanoseconds() {
    assert_eq!(NANOS_PER_SEC, 1_000_000_000);
}

#[test]
fn earlier_second_is_before() {
    let a = WallTime { secs: 10, nanos: 999_999_999 };
    let b = WallTime { secs: 11, nanos: 0 };
    assert!(a.is_before(&b));
    assert!(!b.is_before(&a));
}

#[test]
fn same_second_is_ordered_by_nanoseconds() {
    let a = WallTime { secs: 10, nanos: 4 };
    let b = WallTime { secs: 10, nanos: 5 };
    assert!(a.is_before(&b));
    assert!(!b.is_before(&a));
}

#[test]
fn an_instant_is_not_before_itself() {
    let a = WallTime { secs: -3, nanos: 77 };
    assert!(!a.is_before(&a));
}

#[test]
fn instants_before_the_epoch_are_ordered_too() {
    let a = WallTime { secs: -2, nanos: 999_999_999 };
    let b = WallTime { secs: -1, nanos: 0 };
    assert!(a.is_before(&b));
    assert!(!b.is_before(&a));
}

#[test]
fn plus_seconds_moves_the_second_count_only() {
    let a = WallTime { secs: 100, nanos: 123 };
    assert_eq!(a.plus_seconds(300), Some(WallTime { secs: 400, nanos: 123 }));
    assert_eq!(a.plus_seconds(0), Some(a));
}

#[test]
fn plus_seconds_from_before_the_epoch() {
    let a = WallTime { secs: -50, nanos: 1 };
    assert_eq!(a.plus_seconds(60), Some(WallTime { secs: 10, nanos: 1 }));
    let far = WallTime { secs: i64::MIN, nanos: 0 };
    assert_eq!(far.plus_seconds(u64::MAX), Some(WallTime { secs: i64::MAX, nanos: 0 }));
}

#[test]
fn plus_seconds_stops_at_the_last_second() {
    let a = WallTime { secs: i64::MAX - 5, nanos: 0 };
    assert_eq!(a.plus_seconds(5), Some(WallTime { secs: i64::MAX, nanos: 0 }));
    assert_eq!(a.plus_seconds(6), None);
    assert_eq!(WallTime { secs: 0, nanos: 0 }.plus_seconds(u64::MAX), None);
}

#[test]
fn an_instant_takes_less_than_a_second_of_nanoseconds() {
    assert_eq!(WallTime::new(12, 0), Some(WallTime { secs: 12, nanos: 0 }));
    assert_eq!(WallTime::new(-12, 999_999_999), Some(WallTime { secs: -12, nanos: 999_999_999 }));
    assert_eq!(WallTime::new(12, 1_000_000_000), None);
    assert_eq!(WallTime::new(12, u32::MAX), None);
}

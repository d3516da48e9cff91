use process_monitor::clock::WallTime;
use process_monitor::window::RunWindow;
use std::time::{SystemTime, UNIX_EPOCH};

#[test]
fn a_window_ends_its_duration_after_its_start() {
    let w = RunWindow::new(WallTime { secs: 1_000, nanos: 250 }, 300).unwrap();
    assert_eq!(w.start(), WallTime { secs: 1_000, nanos: 250 });
    assert_eq!(w.duration_secs(), 300);
    assert_eq!(w.end(), WallTime { secs: 1_300, nanos: 250 });
}

#[test]
fn a_window_of_no_length_ends_where_it_starts() {
    let start = WallTime { secs: 5, nanos: 5 };
    let w = RunWindow::new(start, 0).unwrap();
    assert_eq!(w.end(), start);
    assert!(!w.is_open(&start));
    assert!(w.is_open(&WallTime { secs: 5, nanos: 4 }));
}

#[test]
fn a_window_is_open_strictly_before_its_end() {
    let w = RunWindow::new(WallTime { secs: 1_000, nanos: 250 }, 300).unwrap();
    assert!(w.is_open(&WallTime { secs: 1_000, nanos: 250 }));
    assert!(w.is_open(&WallTime { secs: 1_299, nanos: 999_999_999 }));
    assert!(w.is_open(&WallTime { secs: 1_300, nanos: 249 }));
    assert!(!w.is_open(&WallTime { secs: 1_300, nanos: 250 }));
    assert!(!w.is_open(&WallTime { secs: 1_300, nanos: 251 }));
    assert!(!w.is_open(&WallTime { secs: 2_000, nanos: 0 }));
}

#[test]
fn a_window_is_open_before_it_starts() {
    let w = RunWindow::new(WallTime { secs: 1_000, nanos: 0 }, 300).unwrap();
    assert!(w.is_open(&WallTime { secs: 0, nanos: 0 }));
}

#[test]
fn a_window_that_would_end_past_the_last_second_cannot_be_made() {
    assert!(RunWindow::new(WallTime { secs: i64::MAX, nanos: 0 }, 1).is_none());
    assert!(RunWindow::new(WallTime { secs: i64::MAX - 300, nanos: 0 }, 301).is_none());
    assert!(RunWindow::new(WallTime { secs: 1, nanos: 0 }, i64::MAX as u64).is_none());
    assert!(RunWindow::new(WallTime { secs: i64::MAX - 300, nanos: 0 }, 300).is_some());
    assert!(RunWindow::new(WallTime { secs: 0, nanos: 0 }, i64::MAX as u64).is_some());
}

#[test]
fn a_window_opened_now_starts_at_the_present() {
    let before = SystemTime::now().duration_since(UNIX_EPOCH).unwrap().as_secs() as i64;
    let w = RunWindow::opening_now(300).unwrap();
    let after = SystemTime::now().duration_since(UNIX_EPOCH).unwrap().as_secs() as i64;
    assert!(before <= w.start().secs && w.start().secs <= after);
    assert!(w.start().nanos < 1_000_000_000);
    assert_eq!(w.duration_secs(), 300);
    assert_eq!(w.end().secs, w.start().secs + 300);
    assert_eq!(w.end().nanos, w.start().nanos);
}

#[test]
fn a_window_opened_now_can_last_as_long_as_32_bits_hold() {
    let w = RunWindow::opening_now(u32::MAX as u64).unwrap();
    assert_eq!(w.duration_secs(), u32::MAX as u64);
    assert_eq!(w.end().secs, w.start().secs + u32::MAX as i64);
}

#[test]
fn a_window_opened_now_for_too_long_cannot_be_made() {
    assert!(RunWindow::opening_now(u64::MAX).is_none());
}

use process_monitor::naming::snapshot_file_name;

#[test]
fn name_of_the_epoch_second() {
    assert_eq!(snapshot_file_name(0), "0_monitors.json");
}

#[test]
fn names_of_small_seconds() {
    assert_eq!(snapshot_file_name(7), "7_monitors.json");
    assert_eq!(snapshot_file_name(9), "9_monitors.json");
    assert_eq!(snapshot_file_name(10), "10_monitors.json");
    assert_eq!(snapshot_file_name(99), "99_monitors.json");
    assert_eq!(snapshot_file_name(100), "100_monitors.json");
    assert_eq!(snapshot_file_name(1_024_305), "1024305_monitors.json");
}

#[test]
fn name_of_a_present_day_second() {
    assert_eq!(snapshot_file_name(1_700_000_000), "1700000000_monitors.json");
}

#[test]
fn names_of_seconds_before_the_epoch() {
    assert_eq!(snapshot_file_name(-1), "-1_monitors.json");
    assert_eq!(snapshot_file_name(-120), "-120_monitors.json");
}

#[test]
fn names_of_the_extreme_seconds() {
    assert_eq!(snapshot_file_name(i64::MAX), "9223372036854775807_monitors.json");
    assert_eq!(snapshot_file_name(i64::MIN), "-9223372036854775808_monitors.json");
}

#[test]
fn names_agree_with_the_standard_formatting() {
    let mut secs: i64 = 1;
    while secs < i64::MAX / 7 {
        assert_eq!(snapshot_file_name(secs), format!("{}_monitors.json", secs));
        assert_eq!(snapshot_file_name(-secs), format!("{}_monitors.json", -secs));
        secs = secs * 7 + 3;
    }
}

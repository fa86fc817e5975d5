use netframe::timestamp::time_label;
use netframe::visitor::PacketHeader;

fn at(ts_sec: i64, ts_usec: i64) -> String {
    PacketHeader { ts_sec, ts_usec, caplen: 0, len: 0 }.time_of_day()
}

#[test]
fn capture_time_at_the_epoch() {
    assert_eq!(at(0, 0), "00:00:00.000000");
}

#[test]
fn capture_time_has_two_digits_each_and_six_of_the_fraction() {
    assert_eq!(at(3661, 5), "01:01:01.000005");
    assert_eq!(at(86_399, 999_999), "23:59:59.999999");
    assert_eq!(at(45_296, 120_000), "12:34:56.120000");
}

#[test]
fn capture_time_leaves_the_date_out() {
    assert_eq!(at(1_431_648_000, 0), "00:00:00.000000");
    assert_eq!(at(1_431_648_000 + 3 * 3600 + 4 * 60 + 5, 60_708), "03:04:05.060708");
    assert_eq!(at(-1, 0), "23:59:59.000000");
}

#[test]
fn capture_time_with_microseconds_that_are_none() {
    assert_eq!(at(0, -1), "<invalid timestamp>");
    assert_eq!(at(0, 2_000_000), "<invalid timestamp>");
    assert_eq!(at(0, 5_000_000), "<invalid timestamp>");
    assert_eq!(at(0, i64::MAX), "<invalid timestamp>");
    assert_eq!(at(0, i64::MIN), "<invalid timestamp>");
    assert_eq!(at(0, 1_000_000), "<invalid timestamp>");
}

#[test]
fn capture_time_in_a_leap_second() {
    assert_eq!(at(59, 1_500_000), "00:00:60.500000");
    assert_eq!(at(58, 1_500_000), "<invalid timestamp>");
}

#[test]
fn capture_time_out_of_range() {
    assert_eq!(at(i64::MAX, 0), "<invalid timestamp>");
    assert_eq!(at(i64::MIN, 0), "<invalid timestamp>");
}

#[test]
fn label_of_a_time_is_its_text() {
    assert_eq!(time_label(Some("12:00:00.000000".to_string())), "12:00:00.000000");
    assert_eq!(time_label(Some(String::new())), "");
    assert_eq!(time_label(None), "<invalid timestamp>");
}

use elara_log::decimal::decimal;
use elara_log::{ClockReading, Logger};

#[test]
fn decimal_of_single_digits() {
    assert_eq!(decimal(0), "0");
    assert_eq!(decimal(7), "7");
    assert_eq!(decimal(9), "9");
}

#[test]
fn decimal_of_longer_numbers() {
    assert_eq!(decimal(10), "10");
    assert_eq!(decimal(60), "60");
    assert_eq!(decimal(1970), "1970");
    assert_eq!(decimal(2026), "2026");
    assert_eq!(decimal(1_000_000), "1000000");
}

#[test]
fn decimal_of_largest_number() {
    assert_eq!(decimal(u64::MAX), "18446744073709551615");
}

#[test]
fn decimal_agrees_with_std_formatting() {
    let mut n: u64 = 0;
    while n < 3000 {
        assert_eq!(decimal(n), format!("{}", n));
        n += 1;
    }
}

#[test]
fn timestamp_is_not_padded() {
    let reading = ClockReading { year: 2024, month: 3, day: 7, hour: 9, minute: 5, second: 0 };
    assert_eq!(reading.format(), "2024-3-7 9:5:0");
}

#[test]
fn timestamp_with_two_digit_fields() {
    let reading =
        ClockReading { year: 2026, month: 10, day: 28, hour: 23, minute: 59, second: 58 };
    assert_eq!(reading.format(), "2026-10-28 23:59:58");
}

#[test]
fn timestamp_of_the_epoch() {
    let reading = ClockReading { year: 1970, month: 1, day: 1, hour: 0, minute: 0, second: 0 };
    assert_eq!(reading.format(), "1970-1-1 0:0:0");
}

#[test]
fn timestamp_formats_any_field_values() {
    let reading =
        ClockReading { year: 0, month: 255, day: 0, hour: 255, minute: 100, second: 200 };
    assert_eq!(reading.format(), "0-255-0 255:100:200");
}

fn parse_stamp(stamp: &str) -> Vec<u64> {
    let mut fields: Vec<u64> = Vec::new();
    let (date, time) = stamp.split_once(' ').expect("a space between date and time");
    for part in date.split('-') {
        fields.push(part.parse().expect("a number in the date"));
    }
    for part in time.split(':') {
        fields.push(part.parse().expect("a number in the time"));
    }
    fields
}

#[test]
fn current_timestamp_has_six_fields_in_range() {
    let stamp = Logger::new()._timestamp();
    let fields = parse_stamp(&stamp);
    assert_eq!(fields.len(), 6);
    assert!(fields[0] >= 2022);
    assert!(1 <= fields[1] && fields[1] <= 12);
    assert!(1 <= fields[2] && fields[2] <= 31);
    assert!(fields[3] < 24);
    assert!(fields[4] < 60);
    assert!(fields[5] < 60);
}

#[test]
fn current_timestamp_holds_only_digits_and_separators() {
    let stamp = Logger::new()._timestamp();
    assert!(stamp.chars().all(|c| c.is_ascii_digit() || c == '-' || c == ' ' || c == ':'));
    assert_eq!(stamp.matches('-').count(), 2);
    assert_eq!(stamp.matches(':').count(), 2);
    assert_eq!(stamp.matches(' ').count(), 1);
}

#[test]
fn current_timestamps_do_not_go_back() {
    let first = parse_stamp(&Logger::new()._timestamp());
    let second = parse_stamp(&Logger::new()._timestamp());
    assert!(first[0] <= second[0]);
}

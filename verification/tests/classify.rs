use chrono::TimeZone;
use quadsbot::classify::{check, check_hms, classify_count, repeated_chars, Check};

fn local_timestamp(h: u32, m: u32, s: u32) -> i64 {
    chrono::Local
        .with_ymd_and_hms(2020, 1, 1, h, m, s)
        .unwrap()
        .timestamp()
}

#[test]
fn test_single_character() {
    let text = "1";
    assert_eq!(repeated_chars(&text), 1);
}

#[test]
fn test_short_string() {
    let text = "11111";
    assert_eq!(repeated_chars(&text), 5);
}

#[test]
fn test_non_repeating() {
    let text = "12131";
    assert_eq!(repeated_chars(&text), 1);
}

#[test]
fn test_short_repeating() {
    let text = "1112131";
    assert_eq!(repeated_chars(&text), 3);
}

#[test]
fn test_not_quads() {
    let timestamp = local_timestamp(1, 1, 1);
    assert_eq!(check(&timestamp), Check::Other);
}

#[test]
fn test_morning_eleven_quads() {
    let timestamp = local_timestamp(11, 11, 1);
    assert_eq!(check(&timestamp), Check::Quads);
}

#[test]
fn test_evening_eleven_quads() {
    let timestamp = local_timestamp(23, 11, 1);
    assert_eq!(check(&timestamp), Check::Quads);
}

#[test]
fn test_evening_ten_quads() {
    let timestamp = local_timestamp(22, 22, 1);
    assert_eq!(check(&timestamp), Check::Quads);
}

#[test]
fn test_midnight_quads() {
    let timestamp = local_timestamp(0, 0, 1);
    assert_eq!(check(&timestamp), Check::Quads);
}

#[test]
fn test_sexts() {
    let timestamp = local_timestamp(11, 11, 11);
    assert_eq!(check(&timestamp), Check::Sexts);
}

#[test]
fn test_rendered_counts() {
    assert_eq!(repeated_chars("111101"), 4);
    assert_eq!(repeated_chars("010101"), 1);
    assert_eq!(repeated_chars("111111"), 6);
}

#[test]
fn test_classification_table() {
    assert_eq!(classify_count(1), Check::Other);
    assert_eq!(classify_count(2), Check::Other);
    assert_eq!(classify_count(3), Check::Other);
    assert_eq!(classify_count(4), Check::Quads);
    assert_eq!(classify_count(5), Check::Quads);
    assert_eq!(classify_count(6), Check::Sexts);
}

#[test]
fn test_twelve_hour_rescues_a_run() {
    // 23:11:11 renders as 231111 on the 24-hour clock, a run of one, but as
    // 111111 on the 12-hour clock, a run of six.
    assert_eq!(check_hms(23, 11, 11), Check::Sexts);
}

#[test]
fn test_check_hms_table() {
    assert_eq!(check_hms(1, 1, 1), Check::Other);
    assert_eq!(check_hms(11, 11, 1), Check::Quads);
    assert_eq!(check_hms(23, 11, 1), Check::Quads);
    assert_eq!(check_hms(22, 22, 1), Check::Quads);
    assert_eq!(check_hms(0, 0, 1), Check::Quads);
    assert_eq!(check_hms(11, 11, 11), Check::Sexts);
    assert_eq!(check_hms(22, 22, 22), Check::Sexts);
}

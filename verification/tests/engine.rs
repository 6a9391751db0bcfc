use chrono::TimeZone;
use quadsbot::engine::{decide, process_message, Action};
use quadsbot::classify::Check;
use quadsbot::types::{Chat, Message, User};

fn local_timestamp(h: u32, m: u32, s: u32) -> i64 {
    chrono::Local
        .with_ymd_and_hms(2020, 1, 1, h, m, s)
        .unwrap()
        .timestamp()
}

fn fake_message(timestamp: i64, text_message: String) -> Message {
    Message {
        message_id: 1,
        from: Some(User {
            id: 1,
            first_name: "Test User".to_string(),
        }),
        date: timestamp,
        chat: Chat { id: 1 },
        text: Some(text_message),
    }
}

#[test]
fn test_not_on_quads() {
    let timestamp = local_timestamp(1, 1, 1);
    let message = fake_message(timestamp, "Test Message".to_string());

    assert_eq!(process_message(&message), Action::Delete);
}

#[test]
fn test_quads_not_on_quads() {
    let timestamp = local_timestamp(1, 1, 1);
    let message = fake_message(timestamp, "quads".to_string());

    assert_eq!(process_message(&message), Action::Delete);
}

#[test]
fn test_on_quads_not_checked() {
    let timestamp = local_timestamp(11, 11, 1);
    let message = fake_message(timestamp, "Test Message".to_string());

    assert_eq!(process_message(&message), Action::Ignore);
}

#[test]
fn test_on_quads_dont_check_sexts() {
    let timestamp = local_timestamp(11, 11, 1);
    let message = fake_message(timestamp, "sexts".to_string());

    assert_eq!(process_message(&message), Action::Ignore);
}

#[test]
fn test_on_sexts() {
    let timestamp = local_timestamp(11, 11, 11);
    let message = fake_message(timestamp, "Test Message".to_string());

    assert_eq!(process_message(&message), Action::Ignore);
}

#[test]
fn test_on_quads_checked_quads() {
    let timestamp = local_timestamp(11, 11, 1);
    let message = fake_message(timestamp, "quads".to_string());

    assert_eq!(process_message(&message), Action::Reply);
}

#[test]
fn test_on_quads_checked_quads_with_different_casing() {
    let timestamp = local_timestamp(11, 11, 1);
    let message = fake_message(timestamp, "QuAdS".to_string());

    assert_eq!(process_message(&message), Action::Reply);
}

#[test]
fn test_on_quads_check_begins_with_quads() {
    let timestamp = local_timestamp(11, 11, 1);
    let message = fake_message(timestamp, "quads".to_string());

    assert_eq!(process_message(&message), Action::Reply);
}

#[test]
fn test_on_sexts_checked_quads() {
    let timestamp = local_timestamp(11, 11, 11);
    let message = fake_message(timestamp, "quads".to_string());

    assert_eq!(process_message(&message), Action::Reply);
}

#[test]
fn test_on_sexts_checked_sexts() {
    let timestamp = local_timestamp(11, 11, 11);
    let message = fake_message(timestamp, "sexts".to_string());

    assert_eq!(process_message(&message), Action::Reply);
}

#[test]
fn test_no_text_on_quads_is_left_alone() {
    let timestamp = local_timestamp(11, 11, 1);
    let mut message = fake_message(timestamp, String::new());
    message.text = None;

    assert_eq!(process_message(&message), Action::Ignore);
}

#[test]
fn test_no_text_off_quads_is_deleted() {
    let timestamp = local_timestamp(1, 1, 1);
    let mut message = fake_message(timestamp, String::new());
    message.text = None;

    assert_eq!(process_message(&message), Action::Delete);
}

#[test]
fn test_decide_table() {
    assert_eq!(decide(Check::Other, &Some("quads".to_string())), Action::Delete);
    assert_eq!(decide(Check::Other, &None), Action::Delete);
    assert_eq!(decide(Check::Quads, &None), Action::Ignore);
    assert_eq!(decide(Check::Sexts, &None), Action::Ignore);
    assert_eq!(decide(Check::Quads, &Some("quads".to_string())), Action::Reply);
    assert_eq!(decide(Check::Quads, &Some("sexts".to_string())), Action::Ignore);
    assert_eq!(decide(Check::Sexts, &Some("sexts".to_string())), Action::Reply);
    assert_eq!(decide(Check::Sexts, &Some("quads".to_string())), Action::Reply);
    assert_eq!(decide(Check::Quads, &Some("quad".to_string())), Action::Ignore);
    assert_eq!(decide(Check::Quads, &Some("QUADS!!".to_string())), Action::Reply);
}

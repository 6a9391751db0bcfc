use quadsbot::types::{parse_updates, Chat, Message, TypeError, Update, User, Value};

fn obj(entries: Vec<(&str, Value)>) -> Value {
    Value::Obj(
        entries
            .into_iter()
            .map(|(k, v)| (k.to_string(), v))
            .collect(),
    )
}

fn user_value() -> Value {
    obj(vec![
        ("id", Value::Int(7)),
        ("first_name", Value::Str("Ann".to_string())),
    ])
}

fn message_value(update_text: Option<&str>) -> Value {
    let mut entries = vec![
        ("message_id", Value::Int(5)),
        ("from", user_value()),
        ("date", Value::Int(1577872261)),
        ("chat", obj(vec![("id", Value::Int(9))])),
    ];
    if let Some(t) = update_text {
        entries.push(("text", Value::Str(t.to_string())));
    }
    obj(entries)
}

fn update_value() -> Value {
    obj(vec![
        ("update_id", Value::Int(100)),
        ("message", message_value(Some("hello"))),
    ])
}

#[test]
fn test_user_parses() {
    let u = User::new(&user_value()).unwrap();
    assert_eq!(u.id, 7);
    assert_eq!(u.first_name, "Ann".to_string());
}

#[test]
fn test_user_missing_id() {
    let v = obj(vec![("first_name", Value::Str("Ann".to_string()))]);
    let e = User::new(&v).unwrap_err();
    assert_eq!(e, TypeError::FieldMissing("id".to_string()));
}

#[test]
fn test_user_id_of_wrong_type_is_missing() {
    let v = obj(vec![
        ("id", Value::Str("7".to_string())),
        ("first_name", Value::Str("Ann".to_string())),
    ]);
    let e = User::new(&v).unwrap_err();
    assert_eq!(e, TypeError::FieldMissing("id".to_string()));
}

#[test]
fn test_user_not_an_object() {
    let e = User::new(&Value::Int(1)).unwrap_err();
    assert_eq!(e, TypeError::InvalidJSONType("user".to_string()));
}

#[test]
fn test_chat_parses() {
    let c = Chat::new(&obj(vec![("id", Value::Int(9))])).unwrap();
    assert_eq!(*c.id(), 9);
}

#[test]
fn test_chat_not_an_object() {
    let e = Chat::new(&Value::Null).unwrap_err();
    assert_eq!(e, TypeError::InvalidJSONType("chat".to_string()));
}

#[test]
fn test_message_parses() {
    let m = Message::new(&message_value(Some("hello"))).unwrap();
    assert_eq!(m.message_id, 5);
    assert_eq!(m.date, 1577872261);
    assert_eq!(m.chat.id, 9);
    assert_eq!(m.text, Some("hello".to_string()));
    assert_eq!(m.from.as_ref().unwrap().first_name, "Ann".to_string());
}

#[test]
fn test_message_without_text_or_sender() {
    let v = obj(vec![
        ("message_id", Value::Int(5)),
        ("date", Value::Int(1577872261)),
        ("chat", obj(vec![("id", Value::Int(9))])),
    ]);
    let m = Message::new(&v).unwrap();
    assert!(m.text.is_none());
    assert!(m.from.is_none());
}

#[test]
fn test_message_missing_chat() {
    let v = obj(vec![
        ("message_id", Value::Int(5)),
        ("date", Value::Int(1577872261)),
    ]);
    let e = Message::new(&v).unwrap_err();
    assert_eq!(e, TypeError::InvalidJSONType("chat".to_string()));
}

#[test]
fn test_message_bad_sender_fails_message() {
    let v = obj(vec![
        ("message_id", Value::Int(5)),
        ("from", obj(vec![("id", Value::Int(7))])),
        ("date", Value::Int(1577872261)),
        ("chat", obj(vec![("id", Value::Int(9))])),
    ]);
    let e = Message::new(&v).unwrap_err();
    assert_eq!(e, TypeError::FieldMissing("first_name".to_string()));
}

#[test]
fn test_update_parses() {
    let u = Update::new(&update_value()).unwrap();
    assert_eq!(u.update_id, 100);
    assert_eq!(u.message.unwrap().message_id, 5);
}

#[test]
fn test_update_without_message() {
    let v = obj(vec![("update_id", Value::Int(100))]);
    let u = Update::new(&v).unwrap();
    assert!(u.message.is_none());
}

#[test]
fn test_update_not_an_object() {
    let e = Update::new(&Value::Bool(true)).unwrap_err();
    assert_eq!(e, TypeError::InvalidJSONType("update".to_string()));
}

#[test]
fn test_reparse_is_idempotent() {
    let v = update_value();
    let first = Update::new(&v).unwrap();
    let second = Update::new(&v).unwrap();
    assert_eq!(first, second);
}

#[test]
fn test_batch_parses_in_order() {
    let mut a = update_value();
    if let Value::Obj(ref mut entries) = a {
        entries[0].1 = Value::Int(1);
    }
    let b = update_value();
    let batch = vec![a, b];
    let updates = parse_updates(&batch).unwrap();
    assert_eq!(updates.len(), 2);
    assert_eq!(updates[0].update_id, 1);
    assert_eq!(updates[1].update_id, 100);
}

#[test]
fn test_batch_is_all_or_nothing() {
    let batch = vec![update_value(), Value::Null];
    let e = parse_updates(&batch).unwrap_err();
    assert_eq!(e, TypeError::InvalidJSONType("update".to_string()));
}

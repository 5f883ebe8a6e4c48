use gotify_client::api::list_messages_response;
use gotify_client::model::{application_from_text, message_from_text, message_to_json, Message};
use gotify_client::json::json_to_text;
use gotify_client::GotifyError;
use gotify_client::JsonValue;

#[test]
fn test_message_deserialization() {
    let json = r#"{
            "id": 1,
            "message": "Test message",
            "title": "Test title",
            "priority": 5,
            "timestamp": "2024-01-01T00:00:00Z",
            "appid": 1,
            "extras": {"foo": "bar"}
        }"#;

    let message: Message = message_from_text(json).unwrap();
    assert_eq!(message.id, 1);
    assert_eq!(message.message, "Test message");
    assert_eq!(message.title, Some("Test title".to_string()));
    assert_eq!(message.priority, 5);
    assert_eq!(message.app_id, 1);
    assert!(message.extras.is_some());
}

#[test]
fn test_application_deserialization() {
    let json = r#"{
            "id": 1,
            "name": "Test App",
            "description": "A test application",
            "token": "abc123"
        }"#;

    let app = application_from_text(json).unwrap();
    assert_eq!(app.id, 1);
    assert_eq!(app.name, "Test App");
    assert_eq!(app.description, "A test application");
    assert_eq!(app.token, Some("abc123".to_string()));
}

#[test]
fn test_message_without_title() {
    let json = r#"{
            "id": 2,
            "message": "Message without title",
            "priority": 0,
            "timestamp": "2024-01-01T00:00:00Z",
            "appid": 1
        }"#;

    let message: Message = message_from_text(json).unwrap();
    assert_eq!(message.title, None);
}

#[test]
fn test_message_with_all_priorities() {
    for priority in 0..=5 {
        let json = format!(
            r#"{{
                "id": {},
                "message": "Test message",
                "priority": {},
                "timestamp": "2024-01-01T00:00:00Z",
                "appid": 1
            }}"#,
            priority, priority
        );

        let message: Message = message_from_text(&json).unwrap();
        assert_eq!(message.priority, priority);
    }
}

#[test]
fn test_message_serialization() {
    let extras = JsonValue::Obj(vec![("key".to_string(), JsonValue::Str("value".to_string()))]);
    let message = Message {
        id: 1,
        message: "Test".to_string(),
        title: Some("Title".to_string()),
        priority: 3,
        timestamp: "2024-01-01T00:00:00Z".to_string(),
        app_id: 1,
        extras: Some(extras),
    };

    let json = json_to_text(&message_to_json(message));
    let deserialized: Message = message_from_text(&json).unwrap();
    assert_eq!(1, deserialized.id);
    assert_eq!("Test", deserialized.message);
}

#[test]
fn round_trip_preserves_every_field() {
    let message = Message {
        id: 12345678901234567890,
        message: "hello\nworld \"quoted\"".to_string(),
        title: Some("greeting".to_string()),
        priority: -7,
        timestamp: "2026-02-03T04:05:06Z".to_string(),
        app_id: 42,
        extras: None,
    };
    let text = json_to_text(&message_to_json(message));
    let back = message_from_text(&text).unwrap();
    assert_eq!(back.id, 12345678901234567890);
    assert_eq!(back.message, "hello\nworld \"quoted\"");
    assert_eq!(back.title, Some("greeting".to_string()));
    assert_eq!(back.priority, -7);
    assert_eq!(back.timestamp, "2026-02-03T04:05:06Z");
    assert_eq!(back.app_id, 42);
    assert!(back.extras.is_none());
}

#[test]
fn round_trip_keeps_absent_title_absent() {
    let message = Message {
        id: 9,
        message: "plain body".to_string(),
        title: None,
        priority: 0,
        timestamp: "2024-01-01T00:00:00Z".to_string(),
        app_id: 3,
        extras: None,
    };
    let text = json_to_text(&message_to_json(message));
    assert!(!text.contains("title"));
    let back = message_from_text(&text).unwrap();
    assert_eq!(back.title, None);
}

#[test]
fn empty_messages_array_decodes_to_empty_list() {
    let r = list_messages_response(200, r#"{"messages": []}"#.to_string());
    let messages = r.unwrap();
    assert_eq!(messages.len(), 0);
}

#[test]
fn malformed_entry_is_dropped_not_fatal() {
    let body = r#"{"messages": [
        {"id": 7, "message": "ok", "priority": 1,
         "timestamp": "2024-01-01T00:00:00Z", "appid": 2},
        {"id": "not-a-number"}
    ]}"#;
    let messages = list_messages_response(200, body.to_string()).unwrap();
    assert_eq!(messages.len(), 1);
    assert_eq!(messages[0].id, 7);
    assert_eq!(messages[0].message, "ok");
}

#[test]
fn missing_messages_field_is_json_error() {
    let r = list_messages_response(200, r#"{"paging": {}}"#.to_string());
    assert!(matches!(r, Err(GotifyError::JsonError(_))));
}

#[test]
fn non_array_messages_field_is_json_error() {
    let r = list_messages_response(200, r#"{"messages": 5}"#.to_string());
    assert!(matches!(r, Err(GotifyError::JsonError(_))));
}

#[test]
fn array_round_trip_keeps_order_and_fields() {
    let a = Message {
        id: 1,
        message: "first".to_string(),
        title: None,
        priority: 2,
        timestamp: "2024-01-01T00:00:00Z".to_string(),
        app_id: 10,
        extras: None,
    };
    let b = Message {
        id: 2,
        message: "second".to_string(),
        title: Some("t".to_string()),
        priority: -1,
        timestamp: "2024-01-01T00:00:01Z".to_string(),
        app_id: 11,
        extras: None,
    };
    let array_text = json_to_text(&gotify_client::api::messages_to_json(vec![a, b]));
    let body = format!(r#"{{"messages":{}}}"#, array_text);
    let back = list_messages_response(200, body).unwrap();
    assert_eq!(back.len(), 2);
    assert_eq!(back[0].id, 1);
    assert_eq!(back[0].message, "first");
    assert_eq!(back[0].priority, 2);
    assert_eq!(back[0].app_id, 10);
    assert_eq!(back[1].id, 2);
    assert_eq!(back[1].message, "second");
    assert_eq!(back[1].priority, -1);
    assert_eq!(back[1].app_id, 11);
}

#[test]
fn stream_frame_decodes_like_list_entry() {
    let frame = r#"{"id": 11, "message": "pushed", "priority": 2,
                    "timestamp": "2024-06-01T10:00:00Z", "app_id": 4}"#;
    let m = message_from_text(frame).unwrap();
    assert_eq!(m.id, 11);
    assert_eq!(m.app_id, 4);
}

#[test]
fn date_alias_accepted_for_timestamp() {
    let json = r#"{"id": 3, "message": "aliased", "priority": 1,
                   "date": "2023-12-31T23:59:59Z", "appid": 8}"#;
    let m = message_from_text(json).unwrap();
    assert_eq!(m.timestamp, "2023-12-31T23:59:59Z");
    assert_eq!(m.app_id, 8);
}

use gotify_client::api::{
    create_message_response, create_request_doc, delete_response, handle_response,
    health_from_status, list_applications_response,
};
use gotify_client::client::{message_path, messages_endpoint, GotifyClient};
use gotify_client::decimal::{i32_to_dec, parse_i32_str, parse_u64_str, u64_to_dec};
use gotify_client::json::json_to_text;
use gotify_client::GotifyError;

#[test]
fn test_gotify_error_display() {
    let error = GotifyError::AuthFailed("Invalid token".to_string());
    assert_eq!(error.display_string(), "Authentication failed: Invalid token");

    let error = GotifyError::InvalidUrl("not-a-url".to_string());
    assert_eq!(error.display_string(), "Invalid URL: not-a-url");
}

#[test]
fn test_invalid_url_error() {
    let result = GotifyClient::new("not-a-valid-url", "token");
    assert!(result.is_err());
    if let Err(GotifyError::InvalidUrl(_)) = result {
        // Expected error type
    } else {
        panic!("Expected InvalidUrl error");
    }
}

#[test]
fn valid_url_constructs_client() {
    let client = GotifyClient::new("https://example.com:8080", "tok").unwrap();
    assert_eq!(client.get_base_url(), "https://example.com:8080");
    assert_eq!(client.get_token(), "tok");
}

#[test]
fn trailing_slashes_are_stripped() {
    let client = GotifyClient::new("https://example.com///", "t").unwrap();
    assert_eq!(client.get_base_url(), "https://example.com");
}

#[test]
fn endpoint_url_places_token_after_question_mark() {
    let client = GotifyClient::new("https://example.com", "secret").unwrap();
    assert_eq!(
        client.endpoint_url("message"),
        "https://example.com/message?token=secret"
    );
}

#[test]
fn endpoint_url_appends_token_to_existing_query() {
    let client = GotifyClient::new("https://example.com", "secret").unwrap();
    assert_eq!(
        client.endpoint_url("message?since=5"),
        "https://example.com/message?since=5&token=secret"
    );
}

#[test]
fn messages_endpoint_omits_absent_parameters() {
    assert_eq!(messages_endpoint(None, None, None), "message");
    assert_eq!(messages_endpoint(Some(5), None, None), "message?since=5");
    assert_eq!(messages_endpoint(None, Some(10), None), "message?limit=10");
    assert_eq!(
        messages_endpoint(Some(1), Some(2), Some(3)),
        "message?since=1&limit=2&offset=3"
    );
}

#[test]
fn message_path_names_the_resource() {
    assert_eq!(message_path(42), "message/42");
}

#[test]
fn stream_url_upgrades_scheme() {
    let secure = GotifyClient::new("https://example.com", "t").unwrap();
    assert_eq!(secure.stream_url(), "wss://example.com/stream?token=t");
    let plain = GotifyClient::new("http://example.com", "t").unwrap();
    assert_eq!(plain.stream_url(), "ws://example.com/stream?token=t");
}

#[test]
fn health_url_is_unauthenticated() {
    let client = GotifyClient::new("https://example.com", "secret").unwrap();
    let url = client.health_url();
    assert_eq!(url, "https://example.com/health");
    assert!(!url.contains("secret"));
}

#[test]
fn status_codes_map_to_error_kinds() {
    assert!(matches!(
        handle_response(401, "no".to_string()),
        Err(GotifyError::AuthFailed(_))
    ));
    assert!(matches!(
        handle_response(403, "no".to_string()),
        Err(GotifyError::AuthFailed(_))
    ));
    assert!(matches!(
        handle_response(404, "gone".to_string()),
        Err(GotifyError::NotFound(_))
    ));
    assert!(matches!(
        handle_response(429, "slow down".to_string()),
        Err(GotifyError::RateLimited(_))
    ));
    assert!(matches!(
        handle_response(500, "boom".to_string()),
        Err(GotifyError::ServerError(_))
    ));
    assert!(matches!(
        handle_response(503, "busy".to_string()),
        Err(GotifyError::ServerError(_))
    ));
    assert!(matches!(
        handle_response(418, "teapot".to_string()),
        Err(GotifyError::Unknown(418, _))
    ));
}

#[test]
fn forbidden_replaces_body_with_guidance() {
    let e = match handle_response(403, "raw body".to_string()) {
        Err(e) => e,
        Ok(_) => panic!("403 must be an error"),
    };
    assert_eq!(
        e.display_string(),
        "Authentication failed: Access forbidden. Check your token permissions."
    );

    let e = match handle_response(401, "Invalid token".to_string()) {
        Err(e) => e,
        Ok(_) => panic!("401 must be an error"),
    };
    assert_eq!(e.display_string(), "Authentication failed: Invalid token");
}

#[test]
fn success_status_hands_body_through() {
    let r = handle_response(204, "payload".to_string());
    assert_eq!(r.unwrap(), "payload");
}

#[test]
fn unknown_error_text_carries_status_and_body() {
    let e = GotifyError::Unknown(418, "teapot".to_string());
    assert_eq!(e.display_string(), "HTTP 418: teapot");
}

#[test]
fn deleting_absent_id_is_not_found() {
    let r = delete_response(404, "message does not exist".to_string());
    assert!(matches!(r, Err(GotifyError::NotFound(_))));
}

#[test]
fn delete_success_is_unit() {
    assert!(delete_response(200, String::new()).is_ok());
}

#[test]
fn health_is_true_only_on_success_status() {
    assert!(health_from_status(200));
    assert!(health_from_status(204));
    assert!(!health_from_status(404));
    assert!(!health_from_status(500));
}

#[test]
fn create_request_includes_title_only_when_given() {
    let with_title = json_to_text(&create_request_doc(Some("Hi"), "body", 4));
    assert_eq!(with_title, r#"{"title":"Hi","message":"body","priority":4}"#);
    let without = json_to_text(&create_request_doc(None, "body", 4));
    assert_eq!(without, r#"{"message":"body","priority":4}"#);
}

#[test]
fn create_response_returns_server_assigned_message() {
    let body = r#"{"id": 99, "message": "made", "priority": 4,
                   "timestamp": "2024-05-05T05:05:05Z", "appid": 6}"#;
    let m = create_message_response(200, body.to_string()).unwrap();
    assert_eq!(m.id, 99);
    assert_eq!(m.message, "made");
}

#[test]
fn applications_decode_strictly() {
    let good = r#"[{"id": 1, "name": "App", "description": "d", "token": "t"}]"#;
    let apps = list_applications_response(200, good.to_string()).unwrap();
    assert_eq!(apps.len(), 1);
    assert_eq!(apps[0].name, "App");

    let mixed = r#"[{"id": 1, "name": "App", "description": "d"},
                    {"id": "bad"}]"#;
    let r = list_applications_response(200, mixed.to_string());
    assert!(matches!(r, Err(GotifyError::JsonError(_))));
}

#[test]
fn decimal_rendering_and_parsing_agree() {
    assert_eq!(u64_to_dec(0), "0");
    assert_eq!(u64_to_dec(18446744073709551615), "18446744073709551615");
    assert_eq!(parse_u64_str("123"), Some(123));
    assert_eq!(parse_u64_str("18446744073709551616"), None);
    assert_eq!(parse_u64_str("12a"), None);
    assert_eq!(parse_u64_str(""), None);
    assert_eq!(i32_to_dec(-2147483648), "-2147483648");
    assert_eq!(parse_i32_str("-2147483648"), Some(-2147483648));
    assert_eq!(parse_i32_str("2147483648"), None);
    assert_eq!(parse_i32_str("-"), None);
}

#[test]
fn encoder_escapes_string_content() {
    let doc = gotify_client::JsonValue::Str("a\"b\\c\nd".to_string());
    assert_eq!(json_to_text(&doc), r#""a\"b\\c\nd""#);
}

use gotify_client::client::GotifyClient;
use gotify_client::connection::ConnectionState;
use gotify_client::listener::{
    feed_frames, handle_frame, step, ListenerAction, ListenerEvent, ListenerState,
    RECONNECT_DELAY_SECS,
};
use gotify_client::relay::Relay;
use gotify_client::GotifyError;

#[test]
fn well_formed_frames_reach_relay_in_order() {
    let mut relay = Relay::new();
    let frames = vec![
        r#"{"id": 1, "message": "first", "priority": 0,
            "timestamp": "2024-01-01T00:00:00Z", "appid": 1}"#
            .to_string(),
        "this is not JSON".to_string(),
        r#"{"id": 2, "message": "second", "priority": 0,
            "timestamp": "2024-01-01T00:00:01Z", "appid": 1}"#
            .to_string(),
    ];
    feed_frames(&mut relay, &frames);
    assert_eq!(relay.len(), 2);
    let first = relay.pop().unwrap();
    assert_eq!(first.id, 1);
    let second = relay.pop().unwrap();
    assert_eq!(second.id, 2);
    assert!(relay.pop().is_none());
}

#[test]
fn malformed_frame_emits_nothing() {
    let mut relay = Relay::new();
    handle_frame(&mut relay, "{not json");
    handle_frame(&mut relay, r#"{"id": 1}"#);
    assert_eq!(relay.len(), 0);
}

#[test]
fn relay_backlog_survives_close() {
    let mut relay = Relay::new();
    handle_frame(
        &mut relay,
        r#"{"id": 5, "message": "queued", "priority": 0,
            "timestamp": "2024-01-01T00:00:00Z", "appid": 1}"#,
    );
    relay.close();
    assert!(relay.is_closed());
    assert_eq!(relay.pop().unwrap().id, 5);
    assert!(relay.pop().is_none());
}

#[test]
fn immediate_close_repeats_the_same_cycle() {
    let mut state = ListenerState::Idle;
    let (next, action) = step(state, ListenerEvent::Start);
    assert_eq!(next, ListenerState::Connecting);
    assert_eq!(action, ListenerAction::Connect);
    state = next;

    for _ in 0..3 {
        let (next, action) = step(state, ListenerEvent::ConnectOk);
        assert_eq!(next, ListenerState::Streaming);
        assert_eq!(action, ListenerAction::ReadFrame);

        let (next, action) = step(next, ListenerEvent::StreamClosed);
        assert_eq!(next, ListenerState::Closing);
        assert_eq!(action, ListenerAction::CloseTransport);

        let (next, action) = step(next, ListenerEvent::CloseDone);
        assert_eq!(next, ListenerState::Reconnecting);
        assert_eq!(action, ListenerAction::Delay(RECONNECT_DELAY_SECS));
        assert_eq!(action, ListenerAction::Delay(5));

        let (next, action) = step(next, ListenerEvent::DelayElapsed);
        assert_eq!(next, ListenerState::Connecting);
        assert_eq!(action, ListenerAction::Connect);
        state = next;
    }
    assert_ne!(state, ListenerState::Stopped);
}

#[test]
fn failed_connect_waits_the_fixed_delay() {
    let (next, action) = step(ListenerState::Connecting, ListenerEvent::ConnectFailed);
    assert_eq!(next, ListenerState::Reconnecting);
    assert_eq!(action, ListenerAction::Delay(5));
}

#[test]
fn cancel_during_reconnect_delay_stops_without_connecting() {
    let (next, action) = step(ListenerState::Reconnecting, ListenerEvent::Cancel);
    assert_eq!(next, ListenerState::Stopped);
    assert_eq!(action, ListenerAction::Stop);
    assert_ne!(action, ListenerAction::Connect);

    // Stopped is terminal: even a fresh delay expiry moves nothing.
    let (after, action) = step(next, ListenerEvent::DelayElapsed);
    assert_eq!(after, ListenerState::Stopped);
    assert_eq!(action, ListenerAction::Stop);
}

#[test]
fn cancel_wins_in_every_state() {
    let states = [
        ListenerState::Idle,
        ListenerState::Connecting,
        ListenerState::Streaming,
        ListenerState::Closing,
        ListenerState::Reconnecting,
        ListenerState::Stopped,
    ];
    for s in states {
        let (next, action) = step(s, ListenerEvent::Cancel);
        assert_eq!(next, ListenerState::Stopped);
        assert_eq!(action, ListenerAction::Stop);
    }
}

#[test]
fn operations_without_connection_fail_fast() {
    let state = ConnectionState::new();
    assert!(!state.is_connected());
    let r = state.get_client();
    assert!(matches!(r, Err(GotifyError::NotConnected)));
}

#[test]
fn connect_then_disconnect_round_trip() {
    let mut state = ConnectionState::new();
    let client = GotifyClient::new("https://example.com", "tok").unwrap();
    state.set_client(client);
    assert!(state.is_connected());
    assert_eq!(state.get_client().unwrap().get_token(), "tok");

    state.clear_client();
    assert!(!state.is_connected());
    assert!(matches!(state.get_client(), Err(GotifyError::NotConnected)));
}

#[test]
fn replacing_a_handle_is_wholesale() {
    let mut state = ConnectionState::new();
    state.set_client(GotifyClient::new("https://one.example", "a").unwrap());
    state.set_client(GotifyClient::new("https://two.example", "b").unwrap());
    let c = state.get_client().unwrap();
    assert_eq!(c.get_base_url(), "https://two.example");
    assert_eq!(c.get_token(), "b");
}

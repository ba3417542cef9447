use clip_relay::session::{SessionState, WsSession, ACK_PREFIX};
use clip_relay::state::AppState;

#[test]
fn session_starts_connecting() {
    let session = WsSession::new(42);
    assert_eq!(session.id(), 42);
    assert_eq!(session.state(), SessionState::Connecting);
}

#[test]
fn started_registers_and_stopped_unregisters() {
    let mut shared: AppState<&str> = AppState::new();
    let mut session = WsSession::new(1);
    session.started(&mut shared, "wire");
    assert_eq!(session.state(), SessionState::Active);
    assert!(shared.ws_clients.is_registered(1));
    session.stopped(&mut shared);
    assert_eq!(session.state(), SessionState::Closed);
    assert!(!shared.ws_clients.is_registered(1));
}

#[test]
fn stopped_twice_is_safe() {
    let mut shared: AppState<&str> = AppState::new();
    let mut first = WsSession::new(1);
    let mut second = WsSession::new(2);
    first.started(&mut shared, "a");
    second.started(&mut shared, "b");
    first.stopped(&mut shared);
    first.stopped(&mut shared);
    assert_eq!(first.state(), SessionState::Closed);
    assert!(!shared.ws_clients.is_registered(1));
    assert!(shared.ws_clients.is_registered(2));
    assert_eq!(shared.ws_clients.len(), 1);
}

#[test]
fn stopped_before_started_is_safe() {
    let mut shared: AppState<&str> = AppState::new();
    let mut session = WsSession::new(9);
    session.stopped(&mut shared);
    assert_eq!(session.state(), SessionState::Closed);
    assert_eq!(shared.ws_clients.len(), 0);
    session.started(&mut shared, "late");
    assert_eq!(session.state(), SessionState::Closed);
    assert!(!shared.ws_clients.is_registered(9));
}

#[test]
fn active_session_forwards_broadcasts() {
    let mut shared: AppState<&str> = AppState::new();
    let mut session = WsSession::new(1);
    assert_eq!(session.handle_broadcast("early".to_string()), None);
    session.started(&mut shared, "wire");
    assert_eq!(session.handle_broadcast("now".to_string()), Some("now".to_string()));
    session.stopped(&mut shared);
    assert_eq!(session.handle_broadcast("late".to_string()), None);
}

#[test]
fn inbound_clip_is_recorded_and_acknowledged() {
    let mut shared: AppState<&str> = AppState::new();
    let mut session = WsSession::new(1);
    let mut other = WsSession::new(2);
    session.started(&mut shared, "one");
    other.started(&mut shared, "two");
    let text = "https://www.twitch.tv/x/clip/Abc?sort=time";
    let ack = session.handle_text(&mut shared, text);
    assert_eq!(ack, Some(format!("New clip added: {}", text)));
    assert_eq!(ACK_PREFIX, "New clip added: ");
    assert_eq!(
        shared.url_storage.snapshot(),
        vec!["https://clips.twitch.tv/embed?clip=Abc".to_string()]
    );
    assert_eq!(shared.ws_clients.len(), 2);
}

#[test]
fn inbound_text_that_fails_is_ignored() {
    let mut shared: AppState<&str> = AppState::new();
    let mut session = WsSession::new(1);
    session.started(&mut shared, "one");
    assert_eq!(session.handle_text(&mut shared, "hello there"), None);
    assert_eq!(session.handle_text(&mut shared, "a twitch clip without address"), None);
    assert_eq!(session.handle_text(&mut shared, "twitch clip ends in /"), None);
    assert_eq!(session.handle_text(&mut shared, "https://site.tv/video/Abc"), None);
    assert_eq!(shared.url_storage.len(), 0);
}

#[test]
fn inbound_text_outside_active_is_ignored() {
    let mut shared: AppState<&str> = AppState::new();
    let mut session = WsSession::new(1);
    let text = "https://www.twitch.tv/x/clip/Abc";
    assert_eq!(session.handle_text(&mut shared, text), None);
    session.started(&mut shared, "one");
    session.stopped(&mut shared);
    assert_eq!(session.handle_text(&mut shared, text), None);
    assert_eq!(shared.url_storage.len(), 0);
}

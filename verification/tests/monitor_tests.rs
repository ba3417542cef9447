use clip_relay::clip::MalformedReferenceError;
use clip_relay::monitor::{MonitorState, MonitorTask};
use clip_relay::session::WsSession;
use clip_relay::state::AppState;

fn running_monitor(channel: &str) -> MonitorTask {
    let mut task = MonitorTask::new(channel.to_string());
    task.connection_finished(true);
    task
}

#[test]
fn monitor_starts_connecting() {
    let task = MonitorTask::new("some_channel".to_string());
    assert_eq!(task.channel(), "some_channel");
    assert_eq!(task.state(), MonitorState::Connecting);
}

#[test]
fn monitor_runs_once_connected() {
    let mut task = MonitorTask::new("c".to_string());
    task.connection_finished(true);
    assert_eq!(task.state(), MonitorState::Running);
    task.connection_finished(false);
    assert_eq!(task.state(), MonitorState::Running);
    task.stream_ended();
    assert_eq!(task.state(), MonitorState::Stopped);
    assert_eq!(task.channel(), "c");
}

#[test]
fn monitor_stops_when_connection_fails() {
    let mut task = MonitorTask::new("c".to_string());
    task.connection_finished(false);
    assert_eq!(task.state(), MonitorState::Stopped);
    task.connection_finished(true);
    assert_eq!(task.state(), MonitorState::Stopped);
}

#[test]
fn comment_with_clip_reaches_history_and_subscribers() {
    let mut shared: AppState<&str> = AppState::new();
    let mut one = WsSession::new(1);
    let mut two = WsSession::new(2);
    let mut three = WsSession::new(3);
    one.started(&mut shared, "one");
    two.started(&mut shared, "two");
    three.started(&mut shared, "three");
    let task = running_monitor("c");
    let sent: Vec<(u64, &str, String)> = task
        .on_comment(&mut shared, "look https://www.twitch.tv/x/clip/Abc?filter=clips&range=7d")
        .into_iter()
        .map(|d| (d.subscriber, *d.handle, d.text))
        .collect();
    let canonical = "https://clips.twitch.tv/embed?clip=Abc".to_string();
    assert_eq!(sent.len(), 3);
    for (id, handle) in [(1u64, "one"), (2, "two"), (3, "three")] {
        let of_id: Vec<_> = sent.iter().filter(|d| d.0 == id).collect();
        assert_eq!(of_id.len(), 1);
        assert_eq!(of_id[0].1, handle);
        assert_eq!(of_id[0].2, canonical);
    }
    assert_eq!(shared.url_storage.snapshot(), vec![canonical]);
}

#[test]
fn comment_without_clip_is_skipped() {
    let mut shared: AppState<&str> = AppState::new();
    let mut one = WsSession::new(1);
    one.started(&mut shared, "one");
    let task = running_monitor("c");
    assert!(task.on_comment(&mut shared, "hello chat").is_empty());
    assert!(task.on_comment(&mut shared, "https://site.tv/clip/Abc").is_empty());
    assert!(task.on_comment(&mut shared, "twitch clip, no address").is_empty());
    assert!(task.on_comment(&mut shared, "twitch clip https://twitch.tv/clip/").is_empty());
    assert_eq!(shared.url_storage.len(), 0);
    assert_eq!(task.state(), MonitorState::Running);
    assert_eq!(task.on_comment(&mut shared, "twitch.tv/clip/Ok").len(), 1);
}

#[test]
fn monitor_that_does_not_run_takes_no_comment() {
    let mut shared: AppState<&str> = AppState::new();
    let mut one = WsSession::new(1);
    one.started(&mut shared, "one");
    let mut task = MonitorTask::new("c".to_string());
    let text = "https://www.twitch.tv/x/clip/Abc";
    assert!(task.on_comment(&mut shared, text).is_empty());
    task.connection_finished(true);
    task.stream_ended();
    assert!(task.on_comment(&mut shared, text).is_empty());
    assert_eq!(shared.url_storage.len(), 0);
}

#[test]
fn monitor_keeps_the_order_of_comments() {
    let mut shared: AppState<&str> = AppState::new();
    let task = running_monitor("c");
    let comments = [
        "twitch.tv/a/clip/One",
        "no clip here",
        "twitch.tv/a/clip/Two?x=1",
        "twitch clip /",
        "twitch.tv/a/clip/Three",
    ];
    for comment in comments {
        task.on_comment(&mut shared, comment);
    }
    assert_eq!(
        shared.url_storage.snapshot(),
        vec![
            "https://clips.twitch.tv/embed?clip=One".to_string(),
            "https://clips.twitch.tv/embed?clip=Two".to_string(),
            "https://clips.twitch.tv/embed?clip=Three".to_string(),
        ]
    );
}

#[test]
fn add_url_appends_then_notifies() {
    let mut shared: AppState<u8> = AppState::new();
    shared.ws_clients.register(7, 70);
    let sent: Vec<(u64, u8, String)> = shared
        .add_url("https://site.tv/channel/clip/AbcDef123?filter=x&sort=y")
        .unwrap()
        .into_iter()
        .map(|d| (d.subscriber, *d.handle, d.text))
        .collect();
    assert_eq!(sent, vec![(7, 70, "https://clips.twitch.tv/embed?clip=AbcDef123".to_string())]);
    assert_eq!(
        shared.url_storage.snapshot(),
        vec!["https://clips.twitch.tv/embed?clip=AbcDef123".to_string()]
    );
}

#[test]
fn add_url_fails_without_touching_anything() {
    let mut shared: AppState<u8> = AppState::new();
    shared.ws_clients.register(7, 70);
    assert!(matches!(shared.add_url("not-a-url"), Err(MalformedReferenceError::MissingSeparator)));
    assert!(matches!(shared.add_url("x/?q"), Err(MalformedReferenceError::EmptySlug)));
    assert_eq!(shared.url_storage.len(), 0);
    assert_eq!(shared.ws_clients.len(), 1);
}

#[test]
fn record_url_appends_without_notifying() {
    let mut shared: AppState<u8> = AppState::new();
    assert_eq!(
        shared.record_url("a/b?c"),
        Ok("https://clips.twitch.tv/embed?clip=b".to_string())
    );
    assert_eq!(shared.record_url("ab"), Err(MalformedReferenceError::MissingSeparator));
    assert_eq!(shared.url_storage.snapshot(), vec!["https://clips.twitch.tv/embed?clip=b".to_string()]);
}

#[test]
fn notify_clients_reaches_every_subscriber() {
    let mut shared: AppState<u8> = AppState::new();
    shared.ws_clients.register(1, 10);
    shared.ws_clients.register(2, 20);
    let mut sent: Vec<(u64, u8, String)> =
        shared.notify_clients("m").into_iter().map(|d| (d.subscriber, *d.handle, d.text)).collect();
    sent.sort();
    assert_eq!(sent, vec![(1, 10, "m".to_string()), (2, 20, "m".to_string())]);
    assert_eq!(shared.url_storage.len(), 0);
}

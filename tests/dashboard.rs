use water_controller_relay::dashboard::{
    handle_key_event, handle_ws_message, parse_url, AppState, ControllerState, FeedEvent, Key,
    Tab, WsMessage, LOG_LIMIT,
};

#[test]
fn tabs_cycle_in_both_directions() {
    let all = Tab::all();
    assert_eq!(
        all,
        vec![Tab::Monitor, Tab::History, Tab::Connection, Tab::Log, Tab::Help]
    );
    for (i, t) in all.iter().enumerate() {
        assert_eq!(t.next(), all[(i + 1) % 5]);
        assert_eq!(t.prev(), all[(i + 4) % 5]);
        assert_eq!(t.next().prev(), *t);
    }
}

#[test]
fn tab_titles() {
    let titles: Vec<&str> = Tab::all().iter().map(|t| t.title()).collect();
    assert_eq!(titles, vec!["Monitor", "History", "Connection", "Log", "Help"]);
}

#[test]
fn controller_state_starts_without_input() {
    let s = ControllerState::default();
    assert_eq!((s.left, s.right, s.up, s.down), (0, 0, 0, 0));
}

fn owned(t: (&str, &str, &str)) -> (String, String, String) {
    (t.0.to_string(), t.1.to_string(), t.2.to_string())
}

#[test]
fn parse_url_splits_protocol_host_and_port() {
    assert_eq!(parse_url("ws://127.0.0.1:8080/ws"), owned(("ws", "127.0.0.1", "8080")));
    assert_eq!(parse_url("wss://example.org:443"), owned(("wss", "example.org", "443")));
    assert_eq!(parse_url("wss://example.org/feed"), owned(("wss", "example.org/feed", "unknown")));
    assert_eq!(parse_url("http://x:1/y"), owned(("unknown", "http", "")));
    assert_eq!(parse_url(""), owned(("unknown", "", "unknown")));
}

#[test]
fn feed_events_update_the_dashboard() {
    let mut app = AppState::new("ws://127.0.0.1:8080/ws".to_string());
    handle_ws_message(&mut app, FeedEvent::Connected, "12:00:00.000");
    assert!(app.is_connected);
    assert_eq!(app.message_count, 0);
    handle_ws_message(
        &mut app,
        FeedEvent::Message(WsMessage::ControllerInput { left: 2, right: 1, up: 0, down: 1 }),
        "12:00:00.010",
    );
    handle_ws_message(
        &mut app,
        FeedEvent::Message(WsMessage::ButtonInput { is_pushed: true }),
        "12:00:00.020",
    );
    handle_ws_message(&mut app, FeedEvent::Unreadable("{bad".to_string()), "12:00:00.030");
    handle_ws_message(&mut app, FeedEvent::Disconnected, "12:00:00.040");
    assert!(!app.is_connected);
    assert!(app.button_pushed);
    assert_eq!(app.controller, ControllerState { left: 2, right: 1, up: 0, down: 1 });
    assert_eq!(app.message_count, 3);
    let log: Vec<&str> = app.message_log.iter().map(|s| s.as_str()).collect();
    assert_eq!(
        log,
        vec![
            "[12:00:00.000] Connected to WebSocket server",
            "[12:00:00.010] Button: RELEASED | Controller: L=2 R=1 U=0 D=1",
            "[12:00:00.020] Button: PUSHED   | Controller: L=2 R=1 U=0 D=1",
            "[12:00:00.030] Parse error: {bad",
            "[12:00:00.040] Disconnected from WebSocket server",
        ]
    );
}

#[test]
fn logs_keep_only_the_newest_entries() {
    let mut app = AppState::new(String::new());
    for i in 0..LOG_LIMIT + 5 {
        app.add_log("t", &format!("m{i}"));
        app.add_log_message(format!("l{i}"));
    }
    assert_eq!(app.message_log.len(), LOG_LIMIT);
    assert_eq!(app.log_messages.len(), LOG_LIMIT);
    assert_eq!(app.message_log.front().unwrap(), "[t] m5");
    assert_eq!(app.message_log.back().unwrap(), "[t] m104");
    assert_eq!(app.log_messages.front().unwrap(), "l5");
}

#[test]
fn keys_switch_tabs_and_quit() {
    let mut app = AppState::new(String::new());
    assert!(!handle_key_event(&mut app, Key::Char('4')));
    assert_eq!(app.current_tab, Tab::Log);
    assert!(!handle_key_event(&mut app, Key::Tab));
    assert_eq!(app.current_tab, Tab::Help);
    assert!(!handle_key_event(&mut app, Key::Right));
    assert_eq!(app.current_tab, Tab::Monitor);
    assert!(!handle_key_event(&mut app, Key::Left));
    assert_eq!(app.current_tab, Tab::Help);
    assert!(!handle_key_event(&mut app, Key::BackTab));
    assert_eq!(app.current_tab, Tab::Log);
    assert!(!handle_key_event(&mut app, Key::Char('x')));
    assert_eq!(app.current_tab, Tab::Log);
    assert!(handle_key_event(&mut app, Key::Char('q')));
    assert!(handle_key_event(&mut app, Key::Esc));
    assert_eq!(app.current_tab, Tab::Log);
}

use qlira_web_server::config::ServerConfig;
use qlira_web_server::handlers::websocket_handler::{
    websocket_handler, Message, Reaction, SessionState, Tick, WebSocketSession,
    HEARTBEAT_INTERVAL,
};

fn session() -> WebSocketSession {
    let mut config = ServerConfig::default();
    config.websocket_timeout = 60;
    WebSocketSession::new(7, &config, 1_000)
}

#[test]
fn session_starts_alive() {
    let session = session();
    assert_eq!(session.id, 7);
    assert_eq!(session.state, SessionState::Alive);
    assert_eq!(session.heartbeat, 1_000);
    assert_eq!(session.timeout, 60);
    assert_eq!(HEARTBEAT_INTERVAL, 5);
}

#[test]
fn ping_is_answered_and_counts_as_a_sign_of_life() {
    let mut session = session();
    assert_eq!(session.handle(Message::Ping(vec![1, 2]), 2_000), Reaction::Pong(vec![1, 2]));
    assert_eq!(session.heartbeat, 2_000);
    assert_eq!(session.handle(Message::Pong(vec![]), 3_000), Reaction::Nothing);
    assert_eq!(session.heartbeat, 3_000);
    assert_eq!(session.state, SessionState::Alive);
}

#[test]
fn text_and_binary_messages_are_answered_without_touching_the_heartbeat() {
    let mut session = session();
    assert_eq!(
        session.handle(Message::Text("ahoj".to_string()), 5_000),
        Reaction::Text("obdrzel jsem zpravu: ahoj".to_string())
    );
    assert_eq!(session.handle(Message::Binary(vec![9]), 6_000), Reaction::Binary(vec![9]));
    assert_eq!(session.heartbeat, 1_000);
    assert_eq!(session.id, 7);
}

#[test]
fn close_and_unexpected_messages_end_the_session() {
    let mut session = session();
    assert_eq!(session.handle(Message::Close, 2_000), Reaction::CloseAndStop);
    assert_eq!(session.handle(Message::Other, 2_000), Reaction::Stop);
    assert_eq!(session.heartbeat, 1_000);
}

#[test]
fn tick_pings_a_client_that_is_heard_of() {
    let mut session = session();
    assert_eq!(session.heartbeat(1_000), Tick::Ping);
    assert_eq!(session.heartbeat(61_000), Tick::Ping);
    assert_eq!(session.heartbeat(500), Tick::Ping);
    assert_eq!(session.state, SessionState::Alive);
    assert_eq!(session.heartbeat, 1_000);
}

#[test]
fn tick_stops_a_client_that_is_silent_for_too_long() {
    let mut session = session();
    assert_eq!(session.heartbeat(61_001), Tick::Stop);
    assert_eq!(session.state, SessionState::TimedOut);
    assert_eq!(session.heartbeat(61_002), Tick::Stop);
    assert_eq!(session.handle(Message::Ping(vec![]), 61_003), Reaction::Pong(vec![]));
    assert_eq!(session.heartbeat(61_004), Tick::Stop);
    assert_eq!(session.state, SessionState::TimedOut);
}

#[test]
fn tick_survives_the_largest_timeout() {
    let mut config = ServerConfig::default();
    config.websocket_timeout = u64::MAX;
    let mut session = WebSocketSession::new(1, &config, 0);
    assert_eq!(session.heartbeat(u64::MAX), Tick::Ping);
    config.websocket_timeout = 0;
    let mut impatient = WebSocketSession::new(1, &config, 10);
    assert_eq!(impatient.heartbeat(10), Tick::Ping);
    assert_eq!(impatient.heartbeat(11), Tick::Stop);
}

#[test]
fn websocket_requests_are_refused_when_disabled() {
    let mut config = ServerConfig::default();
    let refusal = websocket_handler(&config).unwrap();
    assert_eq!(refusal.status, 404);
    assert_eq!(refusal.body, b"WebSockets nejsou povoleny".to_vec());
    config.enable_websockets = true;
    assert_eq!(websocket_handler(&config), None);
}

use websocket_connector::config::EmptyConfig;
use websocket_connector::connector::WebsocketConnector;
use websocket_connector::event::TestSourceMessage;
use websocket_connector::session::{
    ConnectionTestSession, SessionAction, SessionOutcome, SessionState, WAIT_BUDGET_SECS,
};
use websocket_connector::table::{SubscriptionMessage, WebsocketTable};

fn plain_table() -> WebsocketTable {
    WebsocketTable { endpoint: "ws://host/feed".to_string(), subscription_message: None }
}

fn subscribing_table() -> WebsocketTable {
    WebsocketTable {
        endpoint: "ws://host/feed".to_string(),
        subscription_message: Some(SubscriptionMessage("{\"op\":\"subscribe\"}".to_string())),
    }
}

fn flat(events: &[TestSourceMessage]) -> Vec<(bool, bool, String)> {
    events.iter().map(|e| (e.error, e.done, e.message.clone())).collect()
}

fn closing_events(events: &[TestSourceMessage]) -> usize {
    events.iter().filter(|e| e.done).count()
}

#[test]
fn unreachable_endpoint_gives_one_failure_event() {
    let script = vec![SessionOutcome::ConnectFailure("Io(refused)".to_string())];
    let events = ConnectionTestSession::replay(plain_table(), &script);
    assert_eq!(
        flat(&events),
        vec![(true, true, "Failed to connect to websocket server: Io(refused)".to_string())]
    );
}

#[test]
fn failed_connect_ignores_the_rest_of_the_script() {
    let script = vec![
        SessionOutcome::ConnectFailure("down".to_string()),
        SessionOutcome::Connected,
        SessionOutcome::Message,
        SessionOutcome::Timeout,
    ];
    let events = ConnectionTestSession::replay(subscribing_table(), &script);
    assert_eq!(events.len(), 1);
    assert!(events[0].error);
    assert!(events[0].done);
}

#[test]
fn connect_then_message_validates_in_three_events() {
    let script = vec![SessionOutcome::Connected, SessionOutcome::Message];
    let events = ConnectionTestSession::replay(plain_table(), &script);
    assert_eq!(
        flat(&events),
        vec![
            (false, false, "Successfully connected to websocket server".to_string()),
            (false, false, "Received message from websocket".to_string()),
            (false, true, "Successfully validated websocket connection".to_string()),
        ]
    );
}

#[test]
fn subscription_is_confirmed_before_the_wait() {
    let script =
        vec![SessionOutcome::Connected, SessionOutcome::Sent, SessionOutcome::Message];
    let events = ConnectionTestSession::replay(subscribing_table(), &script);
    assert_eq!(
        flat(&events),
        vec![
            (false, false, "Successfully connected to websocket server".to_string()),
            (false, false, "Sent subscription message".to_string()),
            (false, false, "Received message from websocket".to_string()),
            (false, true, "Successfully validated websocket connection".to_string()),
        ]
    );
}

#[test]
fn failed_subscription_ends_the_test() {
    let script = vec![
        SessionOutcome::Connected,
        SessionOutcome::SendFailure("ConnectionClosed".to_string()),
        SessionOutcome::Message,
    ];
    let events = ConnectionTestSession::replay(subscribing_table(), &script);
    assert_eq!(
        flat(&events),
        vec![
            (false, false, "Successfully connected to websocket server".to_string()),
            (true, true, "Failed to send subscription message: ConnectionClosed".to_string()),
        ]
    );
}

#[test]
fn timeout_is_the_closing_event() {
    let script = vec![SessionOutcome::Connected, SessionOutcome::Timeout, SessionOutcome::Message];
    let events = ConnectionTestSession::replay(plain_table(), &script);
    assert_eq!(
        flat(&events),
        vec![
            (false, false, "Successfully connected to websocket server".to_string()),
            (true, true, "Did not receive any messages after 30 seconds".to_string()),
        ]
    );
}

#[test]
fn receive_error_is_the_closing_event() {
    let script =
        vec![SessionOutcome::Connected, SessionOutcome::ReceiveFailure("Utf8".to_string())];
    let events = ConnectionTestSession::replay(plain_table(), &script);
    assert_eq!(
        flat(&events),
        vec![
            (false, false, "Successfully connected to websocket server".to_string()),
            (true, true, "Received error from websocket: Utf8".to_string()),
        ]
    );
}

#[test]
fn disconnect_is_the_closing_event() {
    let script = vec![SessionOutcome::Connected, SessionOutcome::Disconnected];
    let events = ConnectionTestSession::replay(plain_table(), &script);
    assert_eq!(
        flat(&events),
        vec![
            (false, false, "Successfully connected to websocket server".to_string()),
            (true, true, "Websocket disconnected before sending message".to_string()),
        ]
    );
}

#[test]
fn every_finished_run_has_one_closing_event_at_the_end() {
    let scripts: Vec<Vec<SessionOutcome>> = vec![
        vec![SessionOutcome::ConnectFailure("x".to_string())],
        vec![SessionOutcome::Connected, SessionOutcome::Message],
        vec![SessionOutcome::Connected, SessionOutcome::Timeout],
        vec![SessionOutcome::Connected, SessionOutcome::Disconnected],
        vec![SessionOutcome::Connected, SessionOutcome::ReceiveFailure("x".to_string())],
        vec![SessionOutcome::Connected, SessionOutcome::Message, SessionOutcome::Message],
    ];
    for script in scripts.iter() {
        let events = ConnectionTestSession::replay(plain_table(), script);
        assert!(!events.is_empty());
        assert_eq!(closing_events(&events), 1);
        assert!(events[events.len() - 1].done);
    }
}

#[test]
fn unfinished_run_has_no_closing_event() {
    let events = ConnectionTestSession::replay(plain_table(), &vec![SessionOutcome::Connected]);
    assert_eq!(events.len(), 1);
    assert_eq!(closing_events(&events), 0);
    let none = ConnectionTestSession::replay(plain_table(), &Vec::new());
    assert!(none.is_empty());
}

#[test]
fn outcome_that_answers_nothing_is_ignored() {
    let mut session = ConnectionTestSession::new(plain_table());
    assert!(session.handle(&SessionOutcome::Timeout).is_empty());
    assert!(session.handle(&SessionOutcome::Sent).is_empty());
    assert_eq!(session.state(), SessionState::Connecting);
    let script = vec![SessionOutcome::Connected, SessionOutcome::Sent, SessionOutcome::Message];
    let events = ConnectionTestSession::replay(plain_table(), &script);
    assert_eq!(events.len(), 3);
}

#[test]
fn session_walks_through_its_states() {
    let mut session = WebsocketConnector {}.test(
        "feed",
        EmptyConfig {},
        subscribing_table(),
        None,
    );
    assert_eq!(session.state(), SessionState::Connecting);
    assert!(!session.is_stopped());
    match session.advance() {
        SessionAction::Connect { endpoint } => assert_eq!(endpoint, "ws://host/feed"),
        other => panic!("unexpected action {:?}", other),
    }
    assert_eq!(session.handle(&SessionOutcome::Connected).len(), 1);
    assert_eq!(session.state(), SessionState::Connected);
    match session.advance() {
        SessionAction::SendSubscription { payload } => {
            assert_eq!(payload, "{\"op\":\"subscribe\"}")
        }
        other => panic!("unexpected action {:?}", other),
    }
    assert_eq!(session.state(), SessionState::Subscribing);
    assert_eq!(session.handle(&SessionOutcome::Sent).len(), 1);
    assert_eq!(session.state(), SessionState::Waiting);
    match session.advance() {
        SessionAction::AwaitMessage { budget_secs } => {
            assert_eq!(budget_secs, 30);
            assert_eq!(budget_secs, WAIT_BUDGET_SECS);
        }
        other => panic!("unexpected action {:?}", other),
    }
    assert_eq!(session.handle(&SessionOutcome::Message).len(), 2);
    assert_eq!(session.state(), SessionState::Validated);
    assert!(session.is_stopped());
    assert!(matches!(session.advance(), SessionAction::Finish));
    assert!(session.handle(&SessionOutcome::Message).is_empty());
    assert_eq!(session.table().endpoint, "ws://host/feed");
}

#[test]
fn session_without_subscription_goes_straight_to_waiting() {
    let mut session = ConnectionTestSession::new(plain_table());
    session.advance();
    session.handle(&SessionOutcome::Connected);
    assert!(matches!(session.advance(), SessionAction::AwaitMessage { budget_secs: 30 }));
    assert_eq!(session.state(), SessionState::Waiting);
}

#[test]
fn session_without_observer_stops_and_stays_silent() {
    let mut session = ConnectionTestSession::new(plain_table());
    session.advance();
    session.handle(&SessionOutcome::Connected);
    assert!(session.is_observed());
    session.observer_gone();
    assert!(!session.is_observed());
    assert!(session.is_stopped());
    assert!(matches!(session.advance(), SessionAction::Finish));
    assert_eq!(session.state(), SessionState::Connected);
    assert!(session.handle(&SessionOutcome::Message).is_empty());
    assert_eq!(session.state(), SessionState::Connected);
}

#[test]
fn event_constructors_set_the_flags() {
    let p = TestSourceMessage::progress("a".to_string());
    assert_eq!((p.error, p.done, p.message.as_str()), (false, false, "a"));
    let f = TestSourceMessage::failure("b".to_string());
    assert_eq!((f.error, f.done, f.message.as_str()), (true, true, "b"));
    let s = TestSourceMessage::success("c".to_string());
    assert_eq!((s.error, s.done, s.message.as_str()), (false, true, "c"));
}

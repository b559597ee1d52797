//! Tests of the streaming session core: envelope encoding, frame decoding,
//! the reconnect state machine, the subscription ledger and redaction.

use tastytrade_rs::streaming::backoff::backoff_delay_ms;
use tastytrade_rs::streaming::controller::{
    SessionCommand, SessionConfig, SessionInput, SessionState,
};
use tastytrade_rs::streaming::decode::decode_frame;
use tastytrade_rs::streaming::encode::{json_escape, u64_to_dec, ActionEncoder};
use tastytrade_rs::streaming::redact::redact_text;
use tastytrade_rs::streaming::session::{endpoint_url, SessionCore};
use tastytrade_rs::{AccountEvent, AccountMessage, LifecycleEvent, SubRequestAction};

fn default_config() -> SessionConfig {
    SessionConfig::new()
}

// ---------------------------------------------------------------------
// Outbound envelopes

#[test]
fn test_sub_request_action_serialization() {
    assert_eq!(SubRequestAction::Heartbeat.as_wire_str(), "heartbeat");
    assert_eq!(SubRequestAction::Connect.as_wire_str(), "connect");
    assert_eq!(
        SubRequestAction::PublicWatchlistsSubscribe.as_wire_str(),
        "public-watchlists-subscribe"
    );
    assert_eq!(
        SubRequestAction::QuoteAlertsSubscribe.as_wire_str(),
        "quote-alerts-subscribe"
    );
    assert_eq!(
        SubRequestAction::UserMessageSubscribe.as_wire_str(),
        "user-message-subscribe"
    );
}

#[test]
fn test_sub_request_serialization() {
    let mut encoder = ActionEncoder::new("tastytrade-rs".to_string());
    let json = encoder.encode("test_token", SubRequestAction::Connect, Some("\"test_value\""));
    let parsed: serde_json::Value = serde_json::from_str(&json).unwrap();

    // Test kebab-case field names
    assert_eq!(parsed["auth-token"], "test_token");
    assert_eq!(parsed["action"], "connect"); // Action is also kebab-case
    assert_eq!(parsed["value"], "test_value");
}

#[test]
fn test_sub_request_serialization_no_value() {
    let mut encoder = ActionEncoder::new("tastytrade-rs".to_string());
    let json = encoder.encode("heartbeat_token", SubRequestAction::Heartbeat, None);
    let parsed: serde_json::Value = serde_json::from_str(&json).unwrap();

    assert_eq!(parsed["auth-token"], "heartbeat_token");
    assert_eq!(parsed["action"], "heartbeat"); // Action is kebab-case
    assert!(parsed["value"].is_null());
}

#[test]
fn envelope_text_is_exact() {
    let mut encoder = ActionEncoder::new("src".to_string());
    let json = encoder.encode("tok\"en\\", SubRequestAction::Connect, Some("[\"A1\"]"));
    assert_eq!(
        json,
        "{\"auth-token\":\"tok\\\"en\\\\\",\"action\":\"connect\",\"value\":[\"A1\"],\"request-id\":1,\"source\":\"src\"}"
    );
}

#[test]
fn heartbeats_use_id_zero_and_keep_the_counter() {
    let mut encoder = ActionEncoder::new("s".to_string());
    let first = encoder.encode("t", SubRequestAction::Connect, None);
    let beat = encoder.encode("t", SubRequestAction::Heartbeat, None);
    let second = encoder.encode("t", SubRequestAction::Connect, None);
    assert!(first.contains("\"request-id\":1"));
    assert!(beat.contains("\"request-id\":0"));
    assert!(second.contains("\"request-id\":2"));
}

#[test]
fn escaping_and_decimal_rendering_are_exact() {
    assert_eq!(u64_to_dec(0), "0");
    assert_eq!(u64_to_dec(1234567890), "1234567890");
    assert_eq!(u64_to_dec(u64::MAX), "18446744073709551615");
    assert_eq!(json_escape("a\"b\\c\nd\te"), "a\\\"b\\\\c\\nd\\te");
    assert_eq!(json_escape("\u{1}"), "\\u0001");
}

#[test]
fn endpoint_depends_on_demo_flag() {
    assert_eq!(endpoint_url(false), "wss://streamer.tastyworks.com");
    assert_eq!(endpoint_url(true), "wss://streamer.cert.tastyworks.com");
}

// ---------------------------------------------------------------------
// Inbound frames

#[test]
fn test_status_message_deserialization() {
    let frame = "{\"status\":\"ok\",\"action\":\"connect\",\"web-socket-session-id\":\"session123\",\"request-id\":42}";
    match decode_frame(frame) {
        Some(AccountEvent::StatusMessage(status)) => {
            assert_eq!(status.status, "ok");
            assert_eq!(status.action, "connect");
            assert_eq!(status.web_socket_session_id, "session123");
            assert_eq!(status.request_id, 42);
        }
        other => panic!("expected a status acknowledgement, got {:?}", other),
    }
}

#[test]
fn test_error_message_deserialization() {
    let frame = "{\"status\":\"error\",\"action\":\"subscribe\",\"web-socket-session-id\":\"session456\",\"message\":\"Subscription failed\"}";
    match decode_frame(frame) {
        Some(AccountEvent::ErrorMessage(error)) => {
            assert_eq!(error.status, "error");
            assert_eq!(error.action, "subscribe");
            assert_eq!(error.web_socket_session_id, "session456");
            assert_eq!(error.message, "Subscription failed");
        }
        other => panic!("expected an error notification, got {:?}", other),
    }
}

#[test]
fn heartbeat_ack_decodes_by_its_sequence_field() {
    let frame = "{\"status\":\"ok\",\"action\":\"heartbeat\",\"web-socket-session-id\":\"s1\",\"ws-sequence\":7}";
    match decode_frame(frame) {
        Some(AccountEvent::HeartbeatMessage(h)) => {
            assert_eq!(h.status, "ok");
            assert_eq!(h.ws_sequence, 7);
        }
        other => panic!("expected a heartbeat acknowledgement, got {:?}", other),
    }
}

#[test]
fn heartbeat_ack_never_decodes_as_status() {
    // A frame with `ws-sequence` and no `request-id` must never come out
    // as a status acknowledgement.
    let frame = "{\"status\":\"ok\",\"action\":\"heartbeat\",\"web-socket-session-id\":\"s1\",\"ws-sequence\":9}";
    let decoded = decode_frame(frame);
    assert!(!matches!(decoded, Some(AccountEvent::StatusMessage(_))));
    assert!(matches!(decoded, Some(AccountEvent::HeartbeatMessage(_))));
}

#[test]
fn mixed_error_and_status_shape_is_rejected() {
    // An error-shaped `message` next to a `request-id` matches no shape.
    let frame = "{\"status\":\"error\",\"action\":\"connect\",\"web-socket-session-id\":\"s\",\"message\":\"boom\",\"request-id\":5}";
    assert!(decode_frame(frame).is_none());
}

#[test]
fn test_account_message_order_variant() {
    let frame = "{\"type\":\"Order\",\"data\":{\"id\":123456}}";
    match decode_frame(frame) {
        Some(AccountEvent::AccountMessage(AccountMessage::Order(data))) => {
            assert_eq!(data, "{\"id\":123456}");
        }
        other => panic!("expected an order event, got {:?}", other),
    }
}

#[test]
fn test_account_message_other_variants() {
    // Test OrderChain variant (no data needed)
    let event = decode_frame("{\"type\":\"OrderChain\"}");
    assert!(matches!(
        event,
        Some(AccountEvent::AccountMessage(AccountMessage::OrderChain))
    ));

    // Test ExternalTransaction variant (no data needed)
    let event = decode_frame("{\"type\":\"ExternalTransaction\"}");
    assert!(matches!(
        event,
        Some(AccountEvent::AccountMessage(AccountMessage::ExternalTransaction))
    ));
}

#[test]
fn test_account_event_untagged_deserialization() {
    // Status message case
    let event = decode_frame(
        "{\"status\":\"ok\",\"action\":\"heartbeat\",\"web-socket-session-id\":\"session1\",\"request-id\":1}",
    );
    match event {
        Some(AccountEvent::StatusMessage(status)) => {
            assert_eq!(status.status, "ok");
            assert_eq!(status.action, "heartbeat");
        }
        other => panic!("expected a status acknowledgement, got {:?}", other),
    }

    // Error message case
    let event = decode_frame(
        "{\"status\":\"error\",\"action\":\"connect\",\"web-socket-session-id\":\"session2\",\"message\":\"Authentication failed\"}",
    );
    match event {
        Some(AccountEvent::ErrorMessage(error)) => {
            assert_eq!(error.status, "error");
            assert_eq!(error.message, "Authentication failed");
        }
        other => panic!("expected an error notification, got {:?}", other),
    }

    // Account message case
    let event = decode_frame("{\"type\":\"OrderChain\"}");
    assert!(matches!(
        event,
        Some(AccountEvent::AccountMessage(AccountMessage::OrderChain))
    ));
}

#[test]
fn test_account_event_disambiguation() {
    // StatusMessage has request-id but no message
    let event = decode_frame(
        "{\"status\":\"connected\",\"action\":\"connect\",\"web-socket-session-id\":\"sess1\",\"request-id\":123}",
    );
    assert!(matches!(event, Some(AccountEvent::StatusMessage(_))));

    // ErrorMessage has message but no request-id
    let event = decode_frame(
        "{\"status\":\"error\",\"action\":\"subscribe\",\"web-socket-session-id\":\"sess2\",\"message\":\"Invalid account\"}",
    );
    assert!(matches!(event, Some(AccountEvent::ErrorMessage(_))));

    // AccountMessage has a type field
    let event = decode_frame("{\"type\":\"Order\",\"data\":{\"id\":789}}");
    assert!(matches!(event, Some(AccountEvent::AccountMessage(_))));
}

#[test]
fn undecodable_frames_are_dropped_not_merged() {
    // Not JSON at all.
    assert!(decode_frame("not json").is_none());
    // A JSON document that is not an object.
    assert!(decode_frame("[1,2,3]").is_none());
    // A correlation id that is not an unsigned number is no status ack.
    assert!(decode_frame(
        "{\"status\":\"ok\",\"action\":\"connect\",\"web-socket-session-id\":\"s\",\"request-id\":\"42\"}"
    )
    .is_none());
    // An unknown type tag is no account event.
    assert!(decode_frame("{\"type\":\"Quote\",\"data\":{}}").is_none());
    // A payload-carrying variant without data is rejected.
    assert!(decode_frame("{\"type\":\"Order\"}").is_none());
}

// ---------------------------------------------------------------------
// Backoff policy

#[test]
fn backoff_follows_the_doubling_formula() {
    assert_eq!(backoff_delay_ms(1000, 30000, 1), 1000);
    assert_eq!(backoff_delay_ms(1000, 30000, 2), 2000);
    assert_eq!(backoff_delay_ms(1000, 30000, 5), 16000);
    assert_eq!(backoff_delay_ms(1000, 30000, 6), 30000);
    assert_eq!(backoff_delay_ms(1000, 30000, 20), 30000);
    assert_eq!(backoff_delay_ms(0, 30000, 3), 0);
    assert_eq!(backoff_delay_ms(500, 400, 1), 400);
    // Doubling past the integer range still lands on the ceiling.
    assert_eq!(backoff_delay_ms(1 << 62, u64::MAX - 1, 4), u64::MAX - 1);
}

#[test]
fn resubscription_with_an_empty_ledger_sends_an_empty_list() {
    let mut core = SessionCore::new(SessionConfig::new(), "tastytrade-rs".to_string());
    let replay = core.resubscribe_all("token");
    assert!(replay.contains("\"value\":[]"));
}

// ---------------------------------------------------------------------
// The reconnect state machine

struct Drive {
    events: Vec<LifecycleEvent>,
    dial_attempts: usize,
}

/// Runs the controller against a dialer that always fails, carrying out
/// each command until the controller halts.
fn drive_with_failing_dialer(config: &SessionConfig) -> Drive {
    let mut state = SessionState::Idle;
    let mut events: Vec<LifecycleEvent> = Vec::new();
    let mut dial_attempts: usize = 0;
    let mut input = SessionInput::Start;
    loop {
        let step = tastytrade_rs::streaming::controller::session_step(config, &state, input);
        state = step.state;
        events.extend(step.events);
        match step.command {
            SessionCommand::Dial => {
                dial_attempts += 1;
                input = SessionInput::DialErr { reason: "connection refused".to_string() };
            }
            SessionCommand::Sleep { .. } => {
                input = SessionInput::BackoffDone;
            }
            SessionCommand::Halt => break,
            SessionCommand::Resubscribe | SessionCommand::Wait => {
                panic!("a failing dialer cannot reach {:?}", step.command)
            }
        }
        assert!(dial_attempts < 100, "the controller must give up");
    }
    Drive { events, dial_attempts }
}

#[test]
fn budget_exhaustion_emits_three_reconnects_then_closed() {
    let config = SessionConfig {
        auto_reconnect: true,
        max_reconnect_attempts: 3,
        initial_backoff_ms: 1000,
        max_backoff_ms: 30000,
    };
    let outcome = drive_with_failing_dialer(&config);

    // One initial dial plus exactly three reconnect attempts, never a 4th.
    assert_eq!(outcome.dial_attempts, 4);

    let reconnecting: Vec<u64> = outcome
        .events
        .iter()
        .filter_map(|e| match e {
            LifecycleEvent::Reconnecting { attempt, max_attempts } => {
                assert_eq!(*max_attempts, 3);
                Some(*attempt)
            }
            _ => None,
        })
        .collect();
    assert_eq!(reconnecting, vec![1, 2, 3]);

    let closed: Vec<&LifecycleEvent> = outcome
        .events
        .iter()
        .filter(|e| matches!(e, LifecycleEvent::Closed { .. }))
        .collect();
    assert_eq!(closed.len(), 1);
    assert!(matches!(
        outcome.events.last(),
        Some(LifecycleEvent::Closed { .. })
    ));
}

#[test]
fn disabling_auto_reconnect_closes_after_one_failure() {
    let config = SessionConfig { auto_reconnect: false, ..SessionConfig::new() };
    let outcome = drive_with_failing_dialer(&config);
    assert_eq!(outcome.dial_attempts, 1);
    assert_eq!(outcome.events.len(), 2);
    assert!(matches!(outcome.events[0], LifecycleEvent::Disconnected { .. }));
    assert!(matches!(outcome.events[1], LifecycleEvent::Closed { .. }));
}

#[test]
fn close_mid_backoff_yields_closed_and_halts() {
    let config = default_config();
    let state = SessionState::Backoff { next_attempt: 2 };
    let step = tastytrade_rs::streaming::controller::session_step(
        &config,
        &state,
        SessionInput::CloseReq,
    );
    assert!(matches!(step.state, SessionState::Closed));
    assert!(matches!(step.command, SessionCommand::Halt));
    assert_eq!(step.events.len(), 1);
    assert!(matches!(step.events[0], LifecycleEvent::Closed { .. }));

    // Closed is terminal: nothing more comes out, nothing redials.
    let again = tastytrade_rs::streaming::controller::session_step(
        &config,
        &step.state,
        SessionInput::BackoffDone,
    );
    assert!(matches!(again.state, SessionState::Closed));
    assert!(matches!(again.command, SessionCommand::Halt));
    assert!(again.events.is_empty());
}

#[test]
fn successful_dial_connects_then_resubscribes() {
    let config = default_config();
    let step = tastytrade_rs::streaming::controller::session_step(
        &config,
        &SessionState::Idle,
        SessionInput::Start,
    );
    assert!(matches!(step.command, SessionCommand::Dial));
    let step = tastytrade_rs::streaming::controller::session_step(
        &config,
        &step.state,
        SessionInput::DialOk,
    );
    assert!(matches!(step.state, SessionState::Live { attempt: 0 }));
    assert!(matches!(step.command, SessionCommand::Resubscribe));
    assert_eq!(step.events.len(), 1);
    assert!(matches!(step.events[0], LifecycleEvent::Connected));
}

// ---------------------------------------------------------------------
// The session core: ledger and handle behaviour

#[test]
fn subscribing_twice_keeps_one_ledger_entry_but_sends_two_connects() {
    let mut core = SessionCore::new(SessionConfig::new(), "tastytrade-rs".to_string());
    let first = core.subscribe("token", "5WY40297".to_string());
    let second = core.subscribe("token", "5WY40297".to_string());

    assert_eq!(core.ledger.len(), 1);
    assert!(first.contains("\"action\":\"connect\""));
    assert!(second.contains("\"action\":\"connect\""));
    assert!(first.contains("[\"5WY40297\"]"));
    assert!(second.contains("[\"5WY40297\"]"));
    assert!(first.contains("\"request-id\":1"));
    assert!(second.contains("\"request-id\":2"));
}

#[test]
fn resubscription_replays_the_whole_ledger_in_order() {
    let mut core = SessionCore::new(SessionConfig::new(), "tastytrade-rs".to_string());
    core.subscribe("token", "A1".to_string());
    core.subscribe("token", "B2".to_string());
    core.subscribe("token", "A1".to_string());
    let replay = core.resubscribe_all("token");
    assert!(replay.contains("\"value\":[\"A1\",\"B2\"]"));
    assert!(replay.contains("\"action\":\"connect\""));
}

#[test]
fn close_request_is_reported_by_is_closed() {
    let mut core = SessionCore::new(SessionConfig::new(), "tastytrade-rs".to_string());
    assert!(!core.is_closed());
    core.request_close();
    assert!(core.is_closed());
}

#[test]
fn heartbeat_envelope_has_no_payload() {
    let mut core = SessionCore::new(SessionConfig::new(), "tastytrade-rs".to_string());
    let beat = core.heartbeat("token");
    assert!(!beat.contains("\"value\""));
    assert!(beat.contains("\"action\":\"heartbeat\""));
    assert!(beat.contains("\"request-id\":0"));
}

// ---------------------------------------------------------------------
// Redaction

#[test]
fn redaction_removes_account_numbers_from_logged_frames() {
    let frame = "{\"type\":\"Order\",\"data\":{\"account-number\":\"5WY40297\",\"id\":1}}";
    let redacted = redact_text(frame, &vec!["5WY40297".to_string()]);
    assert!(!redacted.contains("5WY40297"));
    assert!(redacted.contains("<redacted>"));
    assert_eq!(
        redacted,
        "{\"type\":\"Order\",\"data\":{\"account-number\":\"<redacted>\",\"id\":1}}"
    );
}

#[test]
fn redaction_covers_every_occurrence_and_every_secret() {
    let mut core = SessionCore::new(SessionConfig::new(), "tastytrade-rs".to_string());
    core.subscribe("bearer-secret", "5WY40297".to_string());
    let secrets = core.redaction_secrets("bearer-secret", Some("sess-9"));
    let frame = "{\"auth-token\":\"bearer-secret\",\"web-socket-session-id\":\"sess-9\",\"value\":[\"5WY40297\",\"5WY40297\"]}";
    let redacted = redact_text(frame, &secrets);
    assert!(!redacted.contains("bearer-secret"));
    assert!(!redacted.contains("sess-9"));
    assert!(!redacted.contains("5WY40297"));
}

#[test]
fn redaction_leaves_innocent_text_alone() {
    let redacted = redact_text("plain text, nothing secret", &vec!["5WY40297".to_string()]);
    assert_eq!(redacted, "plain text, nothing secret");
    let redacted = redact_text("anything", &vec![]);
    assert_eq!(redacted, "anything");
}

use arguflow_core::frame::{decode_frame, Command};
use arguflow_core::model::{prepare_user_message, Message, Role, Topic};
use arguflow_core::session::{
    run_generation, truncate_history_at, Session, SessionState, LIVENESS_TIMEOUT_MS,
};
use arguflow_core::wire::{encode_frame, OutboundFrame};

fn user_message(id: u128, topic_id: u128, content: &str, seq: i64) -> Message {
    Message::from_details(content.to_string(), topic_id, seq, Role::User, None, None, id, 0)
}

#[test]
fn streamed_reply_concatenates_into_persisted_message() {
    let history = vec![user_message(1, 77, "Explain X", 1)];
    let tokens = vec!["Sure".to_string(), ", ".to_string(), "X is...".to_string()];
    let (frames, message) = run_generation(&history, &tokens, 9, 123);
    assert_eq!(frames.len(), 3);
    assert_eq!(frames[0], OutboundFrame::ChatMessage("Sure".to_string()));
    assert_eq!(frames[1], OutboundFrame::ChatMessage(", ".to_string()));
    assert_eq!(frames[2], OutboundFrame::ChatMessage("X is...".to_string()));
    assert_eq!(message.role, Role::Assistant);
    assert_eq!(message.content, "Sure, X is...");
    assert_eq!(message.sequence_number, 2);
    assert_eq!(message.completion_tokens, Some(3));
    assert_eq!(message.topic_id, 77);
    assert_eq!(message.id, 9);
    assert_eq!(message.created_at, 123);
}

#[test]
fn completion_token_count_matches_frames() {
    let history = vec![user_message(1, 5, "hello", 1)];
    let tokens: Vec<String> = (0..10).map(|i| format!("t{}", i)).collect();
    let (frames, message) = run_generation(&history, &tokens, 2, 0);
    assert_eq!(frames.len(), 10);
    assert_eq!(message.completion_tokens, Some(10));
}

#[test]
fn empty_stream_persists_empty_message() {
    let history = vec![user_message(1, 5, "hello", 1)];
    let tokens: Vec<String> = Vec::new();
    let (frames, message) = run_generation(&history, &tokens, 2, 0);
    assert_eq!(frames.len(), 0);
    assert_eq!(message.content, "");
    assert_eq!(message.completion_tokens, Some(0));
}

#[test]
fn stop_while_generating_silences_and_drops_the_attempt() {
    let mut session = Session::new(10, None, 0);
    let history = vec![user_message(1, 5, "hi", 1)];
    let wire = session.on_prompt(&history).expect("prompt should start");
    assert_eq!(wire.len(), 1);
    assert_eq!(session.state, SessionState::Generating);
    let out = session.on_provider_token("par".to_string());
    assert_eq!(out, Some(OutboundFrame::ChatMessage("par".to_string())));
    let cancelled = session.on_stop();
    assert!(cancelled);
    assert_eq!(session.state, SessionState::Connected);
    // a late token is discarded: no further chatMessage frames
    assert_eq!(session.on_provider_token("tial".to_string()), None);
    // and nothing is persisted for the cancelled attempt
    assert_eq!(session.on_stream_complete(3, 0), None);
}

#[test]
fn stop_without_generation_is_a_no_op() {
    let mut session = Session::new(10, Some(4), 7);
    assert!(!session.on_stop());
    assert_eq!(session.state, SessionState::Connected);
    assert_eq!(session.current_topic_id, Some(4));
    assert_eq!(session.last_ack_ms, 7);
}

#[test]
fn second_prompt_while_generating_is_rejected() {
    let mut session = Session::new(10, None, 0);
    let history = vec![user_message(1, 5, "hi", 1)];
    session.on_prompt(&history).expect("first prompt starts");
    match session.on_prompt(&history) {
        Err(OutboundFrame::Error(text)) => {
            assert_eq!(text, "A completion is already in progress");
        }
        other => panic!("expected an error frame, got {:?}", other),
    }
    assert_eq!(session.state, SessionState::Generating);
}

#[test]
fn prompt_converts_history_in_order() {
    let mut session = Session::new(10, None, 0);
    let history = vec![
        user_message(1, 5, "first", 1),
        Message::from_details("second".to_string(), 5, 2, Role::Assistant, None, Some(2), 2, 0),
        Message::from_details("third".to_string(), 5, 3, Role::System, None, None, 3, 0),
    ];
    let wire = session.on_prompt(&history).expect("prompt should start");
    assert_eq!(wire.len(), 3);
    assert_eq!(wire[0].role, Role::User);
    assert_eq!(wire[0].content, "first");
    assert_eq!(wire[1].role, Role::Assistant);
    assert_eq!(wire[1].content, "second");
    assert_eq!(wire[2].role, Role::System);
    assert_eq!(wire[2].content, "third");
}

#[test]
fn provider_error_reports_and_returns_to_connected() {
    let mut session = Session::new(10, None, 0);
    let history = vec![user_message(1, 5, "hi", 1)];
    session.on_prompt(&history).expect("prompt starts");
    session.on_provider_token("half".to_string());
    let out = session.on_provider_error();
    assert_eq!(
        out,
        Some(OutboundFrame::Error("Completion provider error".to_string()))
    );
    assert_eq!(session.state, SessionState::Connected);
    assert_eq!(session.on_stream_complete(3, 0), None);
}

#[test]
fn unauthorized_topic_change_leaves_topic_untouched() {
    let mut session = Session::new(10, Some(4), 0);
    let out = session.on_change_topic(9, false, Ok(Vec::new()));
    assert_eq!(
        out,
        OutboundFrame::Error("User does not own topic".to_string())
    );
    assert_eq!(
        encode_frame(&out),
        "{\"type\":\"error\",\"message\":\"User does not own topic\"}"
    );
    assert_eq!(session.current_topic_id, Some(4));
}

#[test]
fn malformed_frame_reports_once_and_the_connection_goes_on() {
    let mut session = Session::new(10, Some(4), 0);
    let reason = match decode_frame("{oops") {
        Command::Invalid(reason) => reason,
        other => panic!("expected an invalid command, got {:?}", other),
    };
    let frame = session.on_invalid(reason);
    assert_eq!(
        encode_frame(&frame),
        "{\"type\":\"error\",\"message\":\"Invalid message\"}"
    );
    // the session is untouched and keeps serving later frames
    assert_eq!(session.state, SessionState::Connected);
    assert_eq!(session.current_topic_id, Some(4));
    assert_eq!(decode_frame("{\"command\":\"ping\"}"), Command::Ping);
    session.on_ping(5);
    assert_eq!(session.last_ack_ms, 5);
}

#[test]
fn authorized_topic_change_returns_messages_and_switches() {
    let mut session = Session::new(10, Some(4), 0);
    let messages = vec![user_message(1, 9, "old turn", 1)];
    let out = session.on_change_topic(9, true, Ok(messages.clone()));
    assert_eq!(out, OutboundFrame::Messages(messages));
    assert_eq!(session.current_topic_id, Some(9));
}

#[test]
fn failed_topic_fetch_reports_and_keeps_topic() {
    let mut session = Session::new(10, Some(4), 0);
    let out = session.on_change_topic(9, true, Err("Error loading messages".to_string()));
    assert_eq!(
        out,
        OutboundFrame::Error("Error loading messages".to_string())
    );
    assert_eq!(session.current_topic_id, Some(4));
}

#[test]
fn liveness_timeout_closes_exactly_once() {
    let mut session = Session::new(10, None, 1000);
    assert!(!session.on_tick(1000 + LIVENESS_TIMEOUT_MS));
    assert_eq!(session.state, SessionState::Connected);
    assert!(session.on_tick(1001 + LIVENESS_TIMEOUT_MS));
    assert_eq!(session.state, SessionState::Closing);
    // no second close request, however late the next checks run
    assert!(!session.on_tick(1_000_000_000));
    assert_eq!(session.state, SessionState::Closing);
    session.on_closed();
    assert_eq!(session.state, SessionState::Closed);
    assert!(!session.on_tick(2_000_000_000));
    assert_eq!(session.state, SessionState::Closed);
}

#[test]
fn ping_resets_the_liveness_deadline() {
    let mut session = Session::new(10, None, 0);
    session.on_ping(5000);
    assert_eq!(session.last_ack_ms, 5000);
    assert!(!session.on_tick(5000 + LIVENESS_TIMEOUT_MS));
    assert!(session.on_tick(5001 + LIVENESS_TIMEOUT_MS));
}

#[test]
fn timeout_while_generating_drops_the_generation() {
    let mut session = Session::new(10, None, 0);
    let history = vec![user_message(1, 5, "hi", 1)];
    session.on_prompt(&history).expect("prompt starts");
    assert!(session.on_tick(LIVENESS_TIMEOUT_MS + 1));
    assert_eq!(session.state, SessionState::Closing);
    assert_eq!(session.on_provider_token("late".to_string()), None);
}

#[test]
fn invalid_command_reports_without_state_change() {
    let session = Session::new(10, Some(4), 0);
    let out = session.on_invalid("Missing properties".to_string());
    assert_eq!(
        out,
        OutboundFrame::Error("Missing properties".to_string())
    );
}

#[test]
fn persist_failure_frame_reports_without_retracting() {
    let session = Session::new(10, None, 0);
    assert_eq!(
        session.on_persist_failure(),
        OutboundFrame::Error("Failed to save message".to_string())
    );
}

#[test]
fn stream_completion_pins_every_message_attribute() {
    let mut session = Session::new(10, None, 0);
    let history = vec![user_message(1, 5, "hi", 1), user_message(2, 5, "again", 2)];
    session.on_prompt(&history).expect("prompt starts");
    session.on_provider_token("a".to_string());
    session.on_provider_token("b".to_string());
    let message = session.on_stream_complete(42, 999).expect("completes");
    assert_eq!(message.id, 42);
    assert_eq!(message.topic_id, 5);
    assert_eq!(message.role, Role::Assistant);
    assert_eq!(message.content, "ab");
    assert_eq!(message.sequence_number, 3);
    assert_eq!(message.prompt_tokens, Some(0));
    assert_eq!(message.completion_tokens, Some(2));
    assert_eq!(message.created_at, 999);
    assert_eq!(session.state, SessionState::Connected);
}

#[test]
fn truncation_keeps_strictly_earlier_messages() {
    let history = vec![
        user_message(1, 5, "one", 1),
        user_message(2, 5, "two", 2),
        user_message(3, 5, "three", 3),
    ];
    let kept = truncate_history_at(&history, 2).expect("target exists");
    assert_eq!(kept.len(), 1);
    assert_eq!(kept[0].id, 1);
    assert_eq!(kept[0].content, "one");
    assert!(truncate_history_at(&history, 9).is_none());
    let from_start = truncate_history_at(&history, 1).expect("first message");
    assert_eq!(from_start.len(), 0);
}

#[test]
fn a_new_user_turn_follows_the_history() {
    let m = prepare_user_message("What about Y?".to_string(), 7, 2, 11, 50);
    assert_eq!(m.role, Role::User);
    assert_eq!(m.content, "What about Y?");
    assert_eq!(m.sequence_number, 3);
    assert_eq!(m.topic_id, 7);
    assert_eq!(m.prompt_tokens, None);
    assert_eq!(m.completion_tokens, None);
}

#[test]
fn topics_are_owned_by_their_user() {
    let topic = Topic { id: 1, user_id: 9, name: "debate".to_string(), created_at: 0 };
    assert!(topic.owned_by(9));
    assert!(!topic.owned_by(10));
}

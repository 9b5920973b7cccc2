use arguflow_core::frame::{command_of_frame, decode_frame, Command, InboundFrame};
use arguflow_core::model::Role;

fn uuid_one() -> &'static str {
    "00000000-0000-0000-0000-000000000001"
}

#[test]
fn ping_frame_decodes() {
    assert_eq!(decode_frame("{\"command\":\"ping\"}"), Command::Ping);
}

#[test]
fn stop_frame_decodes() {
    assert_eq!(decode_frame("{\"command\":\"stop\"}"), Command::Stop);
}

#[test]
fn regenerate_frame_decodes() {
    assert_eq!(
        decode_frame("{\"command\":\"regenerateMessage\"}"),
        Command::RegenerateMessage
    );
}

#[test]
fn decoding_same_bytes_twice_gives_same_command() {
    let text = "{\"command\":\"changeTopic\",\"topic_id\":\"00000000-0000-0000-0000-00000000002a\"}";
    let first = decode_frame(text);
    let second = decode_frame(text);
    assert_eq!(first, second);
    assert_eq!(first, Command::ChangeTopic(42));
}

#[test]
fn change_topic_parses_hyphenated_id() {
    let cmd = decode_frame(
        "{\"command\":\"changeTopic\",\"topic_id\":\"00000000-0000-0000-0000-0000000000ff\"}",
    );
    assert_eq!(cmd, Command::ChangeTopic(255));
}

#[test]
fn change_topic_parses_simple_id() {
    let cmd = decode_frame(
        "{\"command\":\"changeTopic\",\"topic_id\":\"000000000000000000000000000000ff\"}",
    );
    assert_eq!(cmd, Command::ChangeTopic(255));
}

#[test]
fn change_topic_without_topic_is_missing_properties() {
    let cmd = decode_frame("{\"command\":\"changeTopic\"}");
    assert_eq!(cmd, Command::Invalid("Missing properties".to_string()));
}

#[test]
fn change_topic_with_null_topic_is_missing_properties() {
    let cmd = decode_frame("{\"command\":\"changeTopic\",\"topic_id\":null}");
    assert_eq!(cmd, Command::Invalid("Missing properties".to_string()));
}

#[test]
fn change_topic_with_bad_id_text_is_invalid() {
    let cmd = decode_frame("{\"command\":\"changeTopic\",\"topic_id\":\"not-an-id\"}");
    assert_eq!(cmd, Command::Invalid("Invalid message".to_string()));
}

#[test]
fn malformed_json_is_invalid_message() {
    assert_eq!(
        decode_frame("{\"command\":"),
        Command::Invalid("Invalid message".to_string())
    );
    assert_eq!(
        decode_frame("not json at all"),
        Command::Invalid("Invalid message".to_string())
    );
    assert_eq!(
        decode_frame(""),
        Command::Invalid("Invalid message".to_string())
    );
    assert_eq!(
        decode_frame("[1,2,3]"),
        Command::Invalid("Invalid message".to_string())
    );
}

#[test]
fn unknown_command_is_missing_properties() {
    assert_eq!(
        decode_frame("{\"command\":\"fly\"}"),
        Command::Invalid("Missing properties".to_string())
    );
}

#[test]
fn missing_command_field_is_invalid_message() {
    assert_eq!(
        decode_frame("{\"topic_id\":\"00000000-0000-0000-0000-000000000001\"}"),
        Command::Invalid("Invalid message".to_string())
    );
    assert_eq!(
        decode_frame("{}"),
        Command::Invalid("Invalid message".to_string())
    );
}

#[test]
fn duplicate_command_field_is_invalid_message() {
    assert_eq!(
        decode_frame("{\"command\":\"ping\",\"command\":\"stop\"}"),
        Command::Invalid("Invalid message".to_string())
    );
}

#[test]
fn whitespace_and_unknown_fields_are_tolerated() {
    let cmd = decode_frame(" {\n\t\"extra\": [1, {\"deep\": true}, null],\r\n \"command\" : \"ping\" } ");
    assert_eq!(cmd, Command::Ping);
}

#[test]
fn trailing_text_is_invalid() {
    assert_eq!(
        decode_frame("{\"command\":\"ping\"} x"),
        Command::Invalid("Invalid message".to_string())
    );
}

fn one_message_frame() -> String {
    format!(
        "{{\"command\":\"prompt\",\"previous_messages\":[{{\"id\":\"{}\",\"topic_id\":\"{}\",\"role\":\"user\",\"content\":\"Explain X\",\"sequence_number\":1,\"created_at\":5}}]}}",
        uuid_one(),
        "00000000-0000-0000-0000-000000000007"
    )
}

#[test]
fn prompt_with_history_decodes() {
    let cmd = decode_frame(&one_message_frame());
    match cmd {
        Command::Prompt(msgs) => {
            assert_eq!(msgs.len(), 1);
            assert_eq!(msgs[0].id, 1);
            assert_eq!(msgs[0].topic_id, 7);
            assert_eq!(msgs[0].role, Role::User);
            assert_eq!(msgs[0].content, "Explain X");
            assert_eq!(msgs[0].sequence_number, 1);
            assert_eq!(msgs[0].prompt_tokens, None);
            assert_eq!(msgs[0].completion_tokens, None);
            assert_eq!(msgs[0].created_at, 5);
        }
        other => panic!("expected a prompt, got {:?}", other),
    }
}

#[test]
fn prompt_with_empty_history_is_missing_properties() {
    let cmd = decode_frame("{\"command\":\"prompt\",\"previous_messages\":[]}");
    assert_eq!(cmd, Command::Invalid("Missing properties".to_string()));
}

#[test]
fn prompt_without_history_is_missing_properties() {
    assert_eq!(
        decode_frame("{\"command\":\"prompt\"}"),
        Command::Invalid("Missing properties".to_string())
    );
    assert_eq!(
        decode_frame("{\"command\":\"prompt\",\"previous_messages\":null}"),
        Command::Invalid("Missing properties".to_string())
    );
}

#[test]
fn prompt_message_with_bad_role_is_invalid() {
    let text = format!(
        "{{\"command\":\"prompt\",\"previous_messages\":[{{\"id\":\"{}\",\"topic_id\":\"{}\",\"role\":\"robot\",\"content\":\"x\",\"sequence_number\":1,\"created_at\":0}}]}}",
        uuid_one(),
        uuid_one()
    );
    assert_eq!(
        decode_frame(&text),
        Command::Invalid("Invalid message".to_string())
    );
}

#[test]
fn prompt_message_missing_field_is_invalid() {
    let text = format!(
        "{{\"command\":\"prompt\",\"previous_messages\":[{{\"id\":\"{}\",\"role\":\"user\",\"content\":\"x\",\"sequence_number\":1,\"created_at\":0}}]}}",
        uuid_one()
    );
    assert_eq!(
        decode_frame(&text),
        Command::Invalid("Invalid message".to_string())
    );
}

#[test]
fn prompt_message_token_fields_accept_null_and_numbers() {
    let text = format!(
        "{{\"command\":\"prompt\",\"previous_messages\":[{{\"id\":\"{}\",\"topic_id\":\"{}\",\"role\":\"assistant\",\"content\":\"y\",\"sequence_number\":2,\"prompt_tokens\":null,\"completion_tokens\":12,\"created_at\":0}}]}}",
        uuid_one(),
        uuid_one()
    );
    match decode_frame(&text) {
        Command::Prompt(msgs) => {
            assert_eq!(msgs[0].prompt_tokens, None);
            assert_eq!(msgs[0].completion_tokens, Some(12));
            assert_eq!(msgs[0].role, Role::Assistant);
        }
        other => panic!("expected a prompt, got {:?}", other),
    }
}

#[test]
fn fractional_sequence_number_is_invalid() {
    let text = format!(
        "{{\"command\":\"prompt\",\"previous_messages\":[{{\"id\":\"{}\",\"topic_id\":\"{}\",\"role\":\"user\",\"content\":\"x\",\"sequence_number\":1.5,\"created_at\":0}}]}}",
        uuid_one(),
        uuid_one()
    );
    assert_eq!(
        decode_frame(&text),
        Command::Invalid("Invalid message".to_string())
    );
}

#[test]
fn string_escapes_decode_in_content() {
    let text = format!(
        "{{\"command\":\"prompt\",\"previous_messages\":[{{\"id\":\"{}\",\"topic_id\":\"{}\",\"role\":\"user\",\"content\":\"a\\n\\\"b\\u0041\",\"sequence_number\":1,\"created_at\":0}}]}}",
        uuid_one(),
        uuid_one()
    );
    match decode_frame(&text) {
        Command::Prompt(msgs) => assert_eq!(msgs[0].content, "a\n\"bA"),
        other => panic!("expected a prompt, got {:?}", other),
    }
}

#[test]
fn transport_frames_map_to_commands() {
    assert_eq!(command_of_frame(&InboundFrame::Ping), Command::Ping);
    assert_eq!(
        command_of_frame(&InboundFrame::Text("{\"command\":\"stop\"}".to_string())),
        Command::Stop
    );
    assert_eq!(
        command_of_frame(&InboundFrame::Binary),
        Command::Invalid("Binary not a valid operation".to_string())
    );
    assert_eq!(
        command_of_frame(&InboundFrame::Close),
        Command::Invalid("Close not a operation".to_string())
    );
    assert_eq!(
        command_of_frame(&InboundFrame::Continuation),
        Command::Invalid("Continuation not a operation".to_string())
    );
    assert_eq!(
        command_of_frame(&InboundFrame::Nop),
        Command::Invalid("Nop not a operation".to_string())
    );
    assert_eq!(
        command_of_frame(&InboundFrame::Pong),
        Command::Invalid("Pong not a operation".to_string())
    );
}

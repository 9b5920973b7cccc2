use arguflow_core::model::{Message, Role};
use arguflow_core::wire::{
    encode_chat_message, encode_error, encode_frame, encode_messages, OutboundFrame,
};

#[test]
fn chat_message_frame_encodes() {
    assert_eq!(
        encode_chat_message("Sure"),
        "{\"type\":\"chatMessage\",\"text\":\"Sure\"}"
    );
}

#[test]
fn error_frame_encodes() {
    assert_eq!(
        encode_error("User does not own topic"),
        "{\"type\":\"error\",\"message\":\"User does not own topic\"}"
    );
}

#[test]
fn text_is_escaped_in_frames() {
    assert_eq!(
        encode_chat_message("a\"b\\c\nd\re\tf"),
        "{\"type\":\"chatMessage\",\"text\":\"a\\\"b\\\\c\\nd\\re\\tf\"}"
    );
    assert_eq!(
        encode_chat_message("\u{1}"),
        "{\"type\":\"chatMessage\",\"text\":\"\\u0001\"}"
    );
    assert_eq!(
        encode_chat_message("\u{1f}"),
        "{\"type\":\"chatMessage\",\"text\":\"\\u001f\"}"
    );
}

#[test]
fn messages_frame_encodes_each_field() {
    let m = Message {
        id: 1,
        topic_id: 255,
        role: Role::User,
        content: "hi".to_string(),
        sequence_number: 1,
        prompt_tokens: None,
        completion_tokens: None,
        created_at: 5,
    };
    let encoded = encode_messages(&vec![m]);
    let expected = "{\"type\":\"messages\",\"messages\":[{\"id\":\"00000000-0000-0000-0000-000000000001\",\"topic_id\":\"00000000-0000-0000-0000-0000000000ff\",\"role\":\"user\",\"content\":\"hi\",\"sequence_number\":1,\"prompt_tokens\":null,\"completion_tokens\":null,\"created_at\":5}]}";
    assert_eq!(encoded, expected);
}

#[test]
fn messages_frame_joins_with_commas() {
    let m1 = Message {
        id: 1,
        topic_id: 2,
        role: Role::User,
        content: "a".to_string(),
        sequence_number: 1,
        prompt_tokens: None,
        completion_tokens: None,
        created_at: 0,
    };
    let mut m2 = m1.clone();
    m2.id = 3;
    m2.role = Role::Assistant;
    m2.content = "b".to_string();
    m2.sequence_number = 2;
    m2.prompt_tokens = Some(0);
    m2.completion_tokens = Some(7);
    let encoded = encode_messages(&vec![m1, m2]);
    let left = encoded.find("\"role\":\"user\"").expect("first message present");
    let right = encoded.find("\"role\":\"assistant\"").expect("second message present");
    assert!(left < right);
    assert!(encoded.contains("},{\"id\":"));
    assert!(encoded.contains("\"completion_tokens\":7"));
    assert!(encoded.contains("\"prompt_tokens\":0"));
}

#[test]
fn empty_message_list_encodes() {
    assert_eq!(
        encode_messages(&Vec::new()),
        "{\"type\":\"messages\",\"messages\":[]}"
    );
}

#[test]
fn negative_and_large_numbers_encode() {
    let m = Message {
        id: 0,
        topic_id: 0,
        role: Role::System,
        content: String::new(),
        sequence_number: -42,
        prompt_tokens: Some(i64::MAX),
        completion_tokens: Some(i64::MIN),
        created_at: 0,
    };
    let encoded = encode_messages(&vec![m]);
    assert!(encoded.contains("\"sequence_number\":-42"));
    assert!(encoded.contains("\"prompt_tokens\":9223372036854775807"));
    assert!(encoded.contains("\"completion_tokens\":-9223372036854775808"));
    assert!(encoded.contains("\"role\":\"system\""));
    assert!(encoded.contains("\"content\":\"\""));
}

#[test]
fn frame_dispatch_encodes_each_kind() {
    assert_eq!(
        encode_frame(&OutboundFrame::ChatMessage("x".to_string())),
        "{\"type\":\"chatMessage\",\"text\":\"x\"}"
    );
    assert_eq!(
        encode_frame(&OutboundFrame::Error("y".to_string())),
        "{\"type\":\"error\",\"message\":\"y\"}"
    );
    assert_eq!(
        encode_frame(&OutboundFrame::Messages(Vec::new())),
        "{\"type\":\"messages\",\"messages\":[]}"
    );
}

#[test]
fn encoded_frames_decode_as_json() {
    // the frames this library writes are plain JSON: an outside parser reads them back
    let text = encode_chat_message("tok\"en\n");
    let value: serde_json::Value = serde_json::from_str(&text).expect("well-formed JSON");
    assert_eq!(value["type"], "chatMessage");
    assert_eq!(value["text"], "tok\"en\n");
}

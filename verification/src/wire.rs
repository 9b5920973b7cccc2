//! Outbound frames of the session wire protocol, and their JSON encoding.
//!
//! A session emits three kinds of JSON frames: a message list, one streamed
//! completion chunk, and an error report.  The encoding is specified
//! character by character and the printing functions are proved to produce
//! exactly it.
use crate::model::{Message, MessageData, Role};
use crate::frame::msgs_view;
use crate::text::{chars_of, push_chars, string_push, string_push_str};
use crate::uid::{hex_char_of, id_chars, sp_hex_char, sp_id_text};
use vstd::prelude::*;

verus! {

/// One outbound frame, before encoding.
#[derive(Debug, Clone, PartialEq)]
pub enum OutboundFrame {
    /// `{type: "messages", messages: [...]}`
    Messages(Vec<Message>),
    /// `{type: "chatMessage", text: ...}`, one per streamed token.
    ChatMessage(String),
    /// `{type: "error", message: ...}`
    Error(String),
}

/// Mathematical image of an [`OutboundFrame`].
pub enum OutboundFrameData {
    Messages(Seq<MessageData>),
    ChatMessage(Seq<char>),
    Error(Seq<char>),
}

impl View for OutboundFrame {
    type V = OutboundFrameData;

    open spec fn view(&self) -> OutboundFrameData {
        match self {
            OutboundFrame::Messages(msgs) => OutboundFrameData::Messages(msgs_view(msgs@)),
            OutboundFrame::ChatMessage(text) => OutboundFrameData::ChatMessage(text@),
            OutboundFrame::Error(message) => OutboundFrameData::Error(message@),
        }
    }
}

/// The escaped form of one character inside a JSON string literal.
pub open spec fn esc_char(c: char) -> Seq<char> {
    if c == '"' {
        "\\\""@
    } else if c == '\\' {
        "\\\\"@
    } else if c == '\n' {
        "\\n"@
    } else if c == '\r' {
        "\\r"@
    } else if c == '\t' {
        "\\t"@
    } else if (c as u32) < 32 {
        "\\u00"@ + seq![sp_hex_char(c as u32 as int / 16), sp_hex_char(c as u32 as int % 16)]
    } else {
        seq![c]
    }
}

/// The escaped form of a text inside a JSON string literal.
pub open spec fn sp_escape(s: Seq<char>) -> Seq<char>
    decreases s.len(),
{
    if s.len() == 0 {
        Seq::empty()
    } else {
        sp_escape(s.drop_last()) + esc_char(s.last())
    }
}

/// Appends the escaped form of the characters.
fn push_escaped_chars(out: &mut String, v: &[char])
    ensures
        final(out)@ == old(out)@ + sp_escape(v@),
{
    proof {
        assert(out@ + sp_escape(v@.subrange(0, 0)) =~= out@);
    }
    let mut i: usize = 0;
    while i < v.len()
        invariant
            i <= v@.len(),
            out@ == old(out)@ + sp_escape(v@.subrange(0, i as int)),
        decreases v@.len() - i,
    {
        let c = v[i];
        if c == '"' {
            string_push_str(out, "\\\"");
        } else if c == '\\' {
            string_push_str(out, "\\\\");
        } else if c == '\n' {
            string_push_str(out, "\\n");
        } else if c == '\r' {
            string_push_str(out, "\\r");
        } else if c == '\t' {
            string_push_str(out, "\\t");
        } else if (c as u32) < 32 {
            string_push_str(out, "\\u00");
            let u = c as u32;
            string_push(out, hex_char_of((u / 16) as u128));
            string_push(out, hex_char_of((u % 16) as u128));
        } else {
            string_push(out, c);
        }
        i = i + 1;
        proof {
            assert(v@.subrange(0, i as int).drop_last() =~= v@.subrange(0, i - 1));
            assert(out@ =~= old(out)@ + sp_escape(v@.subrange(0, i as int)));
        }
    }
    proof {
        assert(v@.subrange(0, v@.len() as int) =~= v@);
    }
}

/// Appends the escaped form of the string.
fn push_escaped(out: &mut String, s: &str)
    ensures
        final(out)@ == old(out)@ + sp_escape(s@),
{
    let v = chars_of(s);
    push_escaped_chars(out, v.as_slice());
}

/// The decimal digits of a non-negative number.
pub open spec fn sp_dec(n: int) -> Seq<char>
    decreases n,
{
    if n < 10 {
        seq![sp_hex_char(n)]
    } else {
        sp_dec(n / 10).push(sp_hex_char(n % 10))
    }
}

/// The decimal text of an integer.
pub open spec fn sp_int_text(n: int) -> Seq<char> {
    if n < 0 {
        seq!['-'] + sp_dec(-n)
    } else {
        sp_dec(n)
    }
}

/// The decimal text of an optional integer, `null` when absent.
pub open spec fn sp_opt_int_text(n: Option<int>) -> Seq<char> {
    match n {
        Some(v) => sp_int_text(v),
        None => "null"@,
    }
}

/// Appends the decimal digits of a non-negative number.
fn push_dec(out: &mut String, v: u64)
    ensures
        final(out)@ == old(out)@ + sp_dec(v as int),
    decreases v,
{
    if v < 10 {
        string_push(out, hex_char_of(v as u128));
        proof {
            assert(out@ =~= old(out)@ + sp_dec(v as int));
        }
    } else {
        push_dec(out, v / 10);
        string_push(out, hex_char_of((v % 10) as u128));
        proof {
            assert(out@ =~= old(out)@ + sp_dec(v as int));
        }
    }
}

/// Appends the decimal text of an integer.
fn push_int(out: &mut String, n: i64)
    ensures
        final(out)@ == old(out)@ + sp_int_text(n as int),
{
    if n >= 0 {
        push_dec(out, n as u64);
    } else {
        string_push(out, '-');
        let mag: u64 = ((-(n + 1)) as u64) + 1;
        push_dec(out, mag);
        proof {
            assert(out@ =~= old(out)@ + sp_int_text(n as int));
        }
    }
}

/// Appends the decimal text of an optional integer.
fn push_opt_int(out: &mut String, n: Option<i64>)
    ensures
        final(out)@ == old(out)@ + sp_opt_int_text(
            match n {
                Some(v) => Some(v as int),
                None => None,
            },
        ),
{
    match n {
        Some(v) => push_int(out, v),
        None => string_push_str(out, "null"),
    }
}

/// The name of a role on the wire.
pub open spec fn sp_role_text(role: Role) -> Seq<char> {
    match role {
        Role::User => "user"@,
        Role::Assistant => "assistant"@,
        Role::System => "system"@,
    }
}

/// The JSON object encoding one message.
pub open spec fn sp_msg_json(m: MessageData) -> Seq<char> {
    "{\"id\":\""@ + sp_id_text(m.id) + "\",\"topic_id\":\""@ + sp_id_text(m.topic_id)
        + "\",\"role\":\""@ + sp_role_text(m.role) + "\",\"content\":\""@ + sp_escape(m.content)
        + "\",\"sequence_number\":"@ + sp_int_text(m.sequence_number) + ",\"prompt_tokens\":"@
        + sp_opt_int_text(m.prompt_tokens) + ",\"completion_tokens\":"@ + sp_opt_int_text(
        m.completion_tokens,
    ) + ",\"created_at\":"@ + sp_int_text(m.created_at) + "}"@
}

/// The comma-separated JSON encoding of a message list.
pub open spec fn sp_msgs_json(msgs: Seq<MessageData>) -> Seq<char>
    decreases msgs.len(),
{
    if msgs.len() == 0 {
        Seq::empty()
    } else if msgs.len() == 1 {
        sp_msg_json(msgs[0])
    } else {
        sp_msgs_json(msgs.drop_last()) + ","@ + sp_msg_json(msgs.last())
    }
}

/// The text of a `messages` frame.
pub open spec fn sp_encode_messages(msgs: Seq<MessageData>) -> Seq<char> {
    "{\"type\":\"messages\",\"messages\":["@ + sp_msgs_json(msgs) + "]}"@
}

/// The text of a `chatMessage` frame.
pub open spec fn sp_encode_chat(text: Seq<char>) -> Seq<char> {
    "{\"type\":\"chatMessage\",\"text\":\""@ + sp_escape(text) + "\"}"@
}

/// The text of an `error` frame.
pub open spec fn sp_encode_error(message: Seq<char>) -> Seq<char> {
    "{\"type\":\"error\",\"message\":\""@ + sp_escape(message) + "\"}"@
}

/// The text of any outbound frame.
pub open spec fn sp_encode_frame(f: OutboundFrameData) -> Seq<char> {
    match f {
        OutboundFrameData::Messages(msgs) => sp_encode_messages(msgs),
        OutboundFrameData::ChatMessage(text) => sp_encode_chat(text),
        OutboundFrameData::Error(message) => sp_encode_error(message),
    }
}

/// Appends the JSON object encoding one message.
#[verifier::rlimit(100)]
fn push_msg_json(out: &mut String, m: &Message)
    ensures
        final(out)@ == old(out)@ + sp_msg_json(m@),
{
    string_push_str(out, "{\"id\":\"");
    let id = id_chars(m.id);
    push_chars(out, id.as_slice());
    string_push_str(out, "\",\"topic_id\":\"");
    let tid = id_chars(m.topic_id);
    push_chars(out, tid.as_slice());
    string_push_str(out, "\",\"role\":\"");
    match m.role {
        Role::User => string_push_str(out, "user"),
        Role::Assistant => string_push_str(out, "assistant"),
        Role::System => string_push_str(out, "system"),
    }
    string_push_str(out, "\",\"content\":\"");
    push_escaped(out, m.content.as_str());
    string_push_str(out, "\",\"sequence_number\":");
    push_int(out, m.sequence_number);
    string_push_str(out, ",\"prompt_tokens\":");
    push_opt_int(out, m.prompt_tokens);
    string_push_str(out, ",\"completion_tokens\":");
    push_opt_int(out, m.completion_tokens);
    string_push_str(out, ",\"created_at\":");
    push_int(out, m.created_at);
    string_push_str(out, "}");
    proof {
        assert(out@ =~= old(out)@ + sp_msg_json(m@));
    }
}

/// The text of a `messages` frame for the given messages.
pub fn encode_messages(msgs: &Vec<Message>) -> (r: String)
    ensures
        r@ == sp_encode_messages(msgs_view(msgs@)),
{
    let mut out = String::new();
    string_push_str(&mut out, "{\"type\":\"messages\",\"messages\":[");
    let mut i: usize = 0;
    proof {
        assert(msgs_view(msgs@).subrange(0, 0) =~= Seq::<MessageData>::empty());
    }
    while i < msgs.len()
        invariant
            i <= msgs@.len(),
            out@ == "{\"type\":\"messages\",\"messages\":["@ + sp_msgs_json(
                msgs_view(msgs@).subrange(0, i as int),
            ),
        decreases msgs@.len() - i,
    {
        if i > 0 {
            string_push_str(&mut out, ",");
        }
        push_msg_json(&mut out, &msgs[i]);
        i = i + 1;
        proof {
            assert(msgs_view(msgs@).subrange(0, i as int).drop_last() =~= msgs_view(
                msgs@,
            ).subrange(0, i - 1));
            assert(msgs_view(msgs@).subrange(0, i as int).last() == msgs@[i - 1]@);
            assert(out@ =~= "{\"type\":\"messages\",\"messages\":["@ + sp_msgs_json(
                msgs_view(msgs@).subrange(0, i as int),
            ));
        }
    }
    string_push_str(&mut out, "]}");
    proof {
        assert(msgs_view(msgs@).subrange(0, msgs@.len() as int) =~= msgs_view(msgs@));
        assert(out@ =~= sp_encode_messages(msgs_view(msgs@)));
    }
    out
}

/// The text of a `chatMessage` frame for one token.
pub fn encode_chat_message(text: &str) -> (r: String)
    ensures
        r@ == sp_encode_chat(text@),
{
    let mut out = String::new();
    string_push_str(&mut out, "{\"type\":\"chatMessage\",\"text\":\"");
    push_escaped(&mut out, text);
    string_push_str(&mut out, "\"}");
    proof {
        assert(out@ =~= sp_encode_chat(text@));
    }
    out
}

/// The text of an `error` frame for one report.
pub fn encode_error(message: &str) -> (r: String)
    ensures
        r@ == sp_encode_error(message@),
{
    let mut out = String::new();
    string_push_str(&mut out, "{\"type\":\"error\",\"message\":\"");
    push_escaped(&mut out, message);
    string_push_str(&mut out, "\"}");
    proof {
        assert(out@ =~= sp_encode_error(message@));
    }
    out
}

/// The text of any outbound frame.
pub fn encode_frame(f: &OutboundFrame) -> (r: String)
    ensures
        r@ == sp_encode_frame(f@),
{
    match f {
        OutboundFrame::Messages(msgs) => encode_messages(msgs),
        OutboundFrame::ChatMessage(text) => encode_chat_message(text.as_str()),
        OutboundFrame::Error(message) => encode_error(message.as_str()),
    }
}

} // verus!

//! Inbound frame decoding.
//!
//! A received frame is classified into exactly one [`Command`].  Text frames
//! carry a JSON object `{command, previous_messages?, topic_id?}`; decoding
//! failures of any kind map to `Command::Invalid`, never to a connection
//! failure.  Non-text transport frames other than a ping are invalid too.
use crate::json::{
    sp_number, sp_skip_value, sp_string_body, sp_ws, parse_number, parse_string_body, skip_value,
    skip_ws,
};
use crate::model::{Message, MessageData, Role};
use crate::text::{chars_is, chars_of, string_from_chars};
use crate::uid::{parse_id, sp_id_of};
use vstd::prelude::*;

verus! {

/// Decoded inbound intent.
#[derive(Debug, Clone, PartialEq)]
pub enum Command {
    Ping,
    Prompt(Vec<Message>),
    RegenerateMessage,
    ChangeTopic(u128),
    Stop,
    Invalid(String),
}

/// Mathematical image of a [`Command`].
pub enum CommandData {
    Ping,
    Prompt(Seq<MessageData>),
    RegenerateMessage,
    ChangeTopic(int),
    Stop,
    Invalid(Seq<char>),
}

/// The views of a sequence of messages.
pub open spec fn msgs_view(v: Seq<Message>) -> Seq<MessageData> {
    Seq::new(v.len(), |i: int| v[i]@)
}

impl View for Command {
    type V = CommandData;

    open spec fn view(&self) -> CommandData {
        match self {
            Command::Ping => CommandData::Ping,
            Command::Prompt(msgs) => CommandData::Prompt(msgs_view(msgs@)),
            Command::RegenerateMessage => CommandData::RegenerateMessage,
            Command::ChangeTopic(t) => CommandData::ChangeTopic(*t as int),
            Command::Stop => CommandData::Stop,
            Command::Invalid(reason) => CommandData::Invalid(reason@),
        }
    }
}

/// The role named by a string, if any.
pub open spec fn sp_role_of(t: Seq<char>) -> Option<Role> {
    if t == "user"@ {
        Some(Role::User)
    } else if t == "assistant"@ {
        Some(Role::Assistant)
    } else if t == "system"@ {
        Some(Role::System)
    } else {
        None
    }
}

/// A string value at `m`: its characters and end position.
pub open spec fn sp_text_value(s: Seq<char>, m: int) -> Option<(Seq<char>, int)> {
    if 0 <= m && m < s.len() && s[m] == '"' {
        sp_string_body(s, m + 1)
    } else {
        None
    }
}

/// A string value at `m` naming an identifier.
pub open spec fn sp_id_value(s: Seq<char>, m: int) -> Option<(int, int)> {
    match sp_text_value(s, m) {
        Some((t, p)) => match sp_id_of(t) {
            Some(v) => Some((v, p)),
            None => None,
        },
        None => None,
    }
}

/// A plain integer value at `m`.
pub open spec fn sp_int_value(s: Seq<char>, m: int) -> Option<(int, int)> {
    match sp_number(s, m) {
        Some((Some(n), p)) => Some((n, p)),
        _ => None,
    }
}

/// A plain integer or `null` at `m`.
pub open spec fn sp_opt_int_value(s: Seq<char>, m: int) -> Option<(Option<int>, int)> {
    if 0 <= m && m + 4 <= s.len() && s[m] == 'n' && s[m + 1] == 'u' && s[m + 2] == 'l' && s[m + 3]
        == 'l' {
        Some((None, m + 4))
    } else {
        match sp_int_value(s, m) {
            Some((n, p)) => Some((Some(n), p)),
            None => None,
        }
    }
}

/// Fields of a message object gathered so far; outer `None` means the field
/// has not appeared.
pub struct MsgFieldsData {
    pub id: Option<int>,
    pub topic_id: Option<int>,
    pub role: Option<Role>,
    pub content: Option<Seq<char>>,
    pub sequence_number: Option<int>,
    pub prompt_tokens: Option<Option<int>>,
    pub completion_tokens: Option<Option<int>>,
    pub created_at: Option<int>,
}

/// No message field seen yet.
pub open spec fn msg_fields_init() -> MsgFieldsData {
    MsgFieldsData {
        id: None,
        topic_id: None,
        role: None,
        content: None,
        sequence_number: None,
        prompt_tokens: None,
        completion_tokens: None,
        created_at: None,
    }
}

/// One `key: value` member of a message object at `i`; known keys must not
/// repeat and must carry a value of their field's type, unknown keys take
/// any value.
pub open spec fn sp_msg_member(s: Seq<char>, i: int, st: MsgFieldsData) -> Option<
    (MsgFieldsData, int),
> {
    if !(0 <= i && i < s.len() && s[i] == '"') {
        None
    } else {
        match sp_string_body(s, i + 1) {
            None => None,
            Some((key, j)) => {
                let k = sp_ws(s, j);
                if !(k < s.len() && s[k] == ':') {
                    None
                } else {
                    let m = sp_ws(s, k + 1);
                    if key == "id"@ {
                        if st.id is Some {
                            None
                        } else {
                            match sp_id_value(s, m) {
                                Some((v, p)) => Some((MsgFieldsData { id: Some(v), ..st }, p)),
                                None => None,
                            }
                        }
                    } else if key == "topic_id"@ {
                        if st.topic_id is Some {
                            None
                        } else {
                            match sp_id_value(s, m) {
                                Some((v, p)) => Some(
                                    (MsgFieldsData { topic_id: Some(v), ..st }, p),
                                ),
                                None => None,
                            }
                        }
                    } else if key == "role"@ {
                        if st.role is Some {
                            None
                        } else {
                            match sp_text_value(s, m) {
                                Some((t, p)) => match sp_role_of(t) {
                                    Some(role) => Some(
                                        (MsgFieldsData { role: Some(role), ..st }, p),
                                    ),
                                    None => None,
                                },
                                None => None,
                            }
                        }
                    } else if key == "content"@ {
                        if st.content is Some {
                            None
                        } else {
                            match sp_text_value(s, m) {
                                Some((t, p)) => Some(
                                    (MsgFieldsData { content: Some(t), ..st }, p),
                                ),
                                None => None,
                            }
                        }
                    } else if key == "sequence_number"@ {
                        if st.sequence_number is Some {
                            None
                        } else {
                            match sp_int_value(s, m) {
                                Some((n, p)) => Some(
                                    (MsgFieldsData { sequence_number: Some(n), ..st }, p),
                                ),
                                None => None,
                            }
                        }
                    } else if key == "prompt_tokens"@ {
                        if st.prompt_tokens is Some {
                            None
                        } else {
                            match sp_opt_int_value(s, m) {
                                Some((n, p)) => Some(
                                    (MsgFieldsData { prompt_tokens: Some(n), ..st }, p),
                                ),
                                None => None,
                            }
                        }
                    } else if key == "completion_tokens"@ {
                        if st.completion_tokens is Some {
                            None
                        } else {
                            match sp_opt_int_value(s, m) {
                                Some((n, p)) => Some(
                                    (MsgFieldsData { completion_tokens: Some(n), ..st }, p),
                                ),
                                None => None,
                            }
                        }
                    } else if key == "created_at"@ {
                        if st.created_at is Some {
                            None
                        } else {
                            match sp_int_value(s, m) {
                                Some((n, p)) => Some(
                                    (MsgFieldsData { created_at: Some(n), ..st }, p),
                                ),
                                None => None,
                            }
                        }
                    } else {
                        match sp_skip_value(s, m) {
                            Some(p) => Some((st, p)),
                            None => None,
                        }
                    }
                }
            },
        }
    }
}

/// The member list of a message object from `i` to its closing brace.
pub open spec fn sp_msg_fields(s: Seq<char>, i: int, st: MsgFieldsData) -> Option<
    (MsgFieldsData, int),
>
    decreases s.len() - i,
{
    match sp_msg_member(s, i, st) {
        None => None,
        Some((st2, p)) => {
            let q = sp_ws(s, p);
            if !(i < p && p <= q && q <= s.len()) {
                None
            } else if q < s.len() && s[q] == ',' {
                let r = sp_ws(s, q + 1);
                if i < r && r <= s.len() {
                    sp_msg_fields(s, r, st2)
                } else {
                    None
                }
            } else if q < s.len() && s[q] == '}' {
                Some((st2, q + 1))
            } else {
                None
            }
        },
    }
}

/// An optional field's value, with absence and `null` alike.
pub open spec fn flatten_opt(x: Option<Option<int>>) -> Option<int> {
    match x {
        Some(y) => y,
        None => None,
    }
}

/// The message named by gathered fields; all fields but the token counts
/// are required.
pub open spec fn msg_of_fields(st: MsgFieldsData) -> Option<MessageData> {
    if st.id is Some && st.topic_id is Some && st.role is Some && st.content is Some
        && st.sequence_number is Some && st.created_at is Some {
        Some(
            MessageData {
                id: st.id->Some_0,
                topic_id: st.topic_id->Some_0,
                role: st.role->Some_0,
                content: st.content->Some_0,
                sequence_number: st.sequence_number->Some_0,
                prompt_tokens: flatten_opt(st.prompt_tokens),
                completion_tokens: flatten_opt(st.completion_tokens),
                created_at: st.created_at->Some_0,
            },
        )
    } else {
        None
    }
}

/// A non-empty message list from `i` to its closing bracket.
pub open spec fn sp_messages(s: Seq<char>, i: int) -> Option<(Seq<MessageData>, int)>
    decreases s.len() - i,
{
    if !(0 <= i && i < s.len() && s[i] == '{') {
        None
    } else {
        let m = sp_ws(s, i + 1);
        if !(i < m && m <= s.len()) {
            None
        } else if m < s.len() && s[m] == '}' {
            None
        } else {
            match sp_msg_fields(s, m, msg_fields_init()) {
                None => None,
                Some((st, e)) => match msg_of_fields(st) {
                    None => None,
                    Some(msg) => {
                        let q = sp_ws(s, e);
                        if !(i < e && e <= q && q <= s.len()) {
                            None
                        } else if q < s.len() && s[q] == ',' {
                            let r = sp_ws(s, q + 1);
                            if i < r && r <= s.len() {
                                match sp_messages(s, r) {
                                    Some((rest, end)) => Some((seq![msg] + rest, end)),
                                    None => None,
                                }
                            } else {
                                None
                            }
                        } else if q < s.len() && s[q] == ']' {
                            Some((seq![msg], q + 1))
                        } else {
                            None
                        }
                    },
                },
            }
        }
    }
}

/// Fields of the frame object gathered so far; for the two optional fields
/// the inner option distinguishes `null` from a value.
pub struct FrameFieldsData {
    pub command: Option<Seq<char>>,
    pub prev: Option<Option<Seq<MessageData>>>,
    pub topic: Option<Option<int>>,
}

/// No frame field seen yet.
pub open spec fn frame_fields_init() -> FrameFieldsData {
    FrameFieldsData { command: None, prev: None, topic: None }
}

/// One `key: value` member of the frame object at `i`.
pub open spec fn sp_frame_member(s: Seq<char>, i: int, st: FrameFieldsData) -> Option<
    (FrameFieldsData, int),
> {
    if !(0 <= i && i < s.len() && s[i] == '"') {
        None
    } else {
        match sp_string_body(s, i + 1) {
            None => None,
            Some((key, j)) => {
                let k = sp_ws(s, j);
                if !(k < s.len() && s[k] == ':') {
                    None
                } else {
                    let m = sp_ws(s, k + 1);
                    if key == "command"@ {
                        if st.command is Some {
                            None
                        } else {
                            match sp_text_value(s, m) {
                                Some((t, p)) => Some(
                                    (FrameFieldsData { command: Some(t), ..st }, p),
                                ),
                                None => None,
                            }
                        }
                    } else if key == "previous_messages"@ {
                        if st.prev is Some {
                            None
                        } else if 0 <= m && m + 4 <= s.len() && s[m] == 'n' && s[m + 1] == 'u'
                            && s[m + 2] == 'l' && s[m + 3] == 'l' {
                            Some((FrameFieldsData { prev: Some(None), ..st }, m + 4))
                        } else if m < s.len() && s[m] == '[' {
                            let w = sp_ws(s, m + 1);
                            if !(m < w && w <= s.len()) {
                                None
                            } else if w < s.len() && s[w] == ']' {
                                Some(
                                    (
                                        FrameFieldsData {
                                            prev: Some(Some(Seq::empty())),
                                            ..st
                                        },
                                        w + 1,
                                    ),
                                )
                            } else {
                                match sp_messages(s, w) {
                                    Some((msgs, p)) => Some(
                                        (FrameFieldsData { prev: Some(Some(msgs)), ..st }, p),
                                    ),
                                    None => None,
                                }
                            }
                        } else {
                            None
                        }
                    } else if key == "topic_id"@ {
                        if st.topic is Some {
                            None
                        } else if 0 <= m && m + 4 <= s.len() && s[m] == 'n' && s[m + 1] == 'u'
                            && s[m + 2] == 'l' && s[m + 3] == 'l' {
                            Some((FrameFieldsData { topic: Some(None), ..st }, m + 4))
                        } else {
                            match sp_id_value(s, m) {
                                Some((v, p)) => Some(
                                    (FrameFieldsData { topic: Some(Some(v)), ..st }, p),
                                ),
                                None => None,
                            }
                        }
                    } else {
                        match sp_skip_value(s, m) {
                            Some(p) => Some((st, p)),
                            None => None,
                        }
                    }
                }
            },
        }
    }
}

/// The member list of the frame object from `i` to its closing brace.
pub open spec fn sp_frame_fields(s: Seq<char>, i: int, st: FrameFieldsData) -> Option<
    (FrameFieldsData, int),
>
    decreases s.len() - i,
{
    match sp_frame_member(s, i, st) {
        None => None,
        Some((st2, p)) => {
            let q = sp_ws(s, p);
            if !(i < p && p <= q && q <= s.len()) {
                None
            } else if q < s.len() && s[q] == ',' {
                let r = sp_ws(s, q + 1);
                if i < r && r <= s.len() {
                    sp_frame_fields(s, r, st2)
                } else {
                    None
                }
            } else if q < s.len() && s[q] == '}' {
                Some((st2, q + 1))
            } else {
                None
            }
        },
    }
}

/// The command named by gathered frame fields: a known command name with
/// the fields it needs, anything else `Invalid`.
pub open spec fn sp_classify(st: FrameFieldsData) -> CommandData {
    match st.command {
        None => CommandData::Invalid("Invalid message"@),
        Some(cmd) => if cmd == "ping"@ {
            CommandData::Ping
        } else if cmd == "prompt"@ && (st.prev matches Some(Some(msgs)) && msgs.len() > 0) {
            CommandData::Prompt(st.prev->Some_0->Some_0)
        } else if cmd == "regenerateMessage"@ {
            CommandData::RegenerateMessage
        } else if cmd == "changeTopic"@ && (st.topic matches Some(Some(_t))) {
            CommandData::ChangeTopic(st.topic->Some_0->Some_0)
        } else if cmd == "stop"@ {
            CommandData::Stop
        } else {
            CommandData::Invalid("Missing properties"@)
        },
    }
}

/// The command decoded from the characters of one text frame.
pub open spec fn sp_decode_frame(s: Seq<char>) -> CommandData {
    let i = sp_ws(s, 0);
    if !(0 <= i && i < s.len() && s[i] == '{') {
        CommandData::Invalid("Invalid message"@)
    } else {
        let k = sp_ws(s, i + 1);
        if !(i < k && k <= s.len()) {
            CommandData::Invalid("Invalid message"@)
        } else if k < s.len() && s[k] == '}' {
            if sp_ws(s, k + 1) == s.len() {
                sp_classify(frame_fields_init())
            } else {
                CommandData::Invalid("Invalid message"@)
            }
        } else {
            match sp_frame_fields(s, k, frame_fields_init()) {
                None => CommandData::Invalid("Invalid message"@),
                Some((st, e)) => if sp_ws(s, e) == s.len() {
                    sp_classify(st)
                } else {
                    CommandData::Invalid("Invalid message"@)
                },
            }
        }
    }
}

/// Executable fields of a message object being read.
pub struct MsgState {
    pub id: Option<u128>,
    pub topic_id: Option<u128>,
    pub role: Option<Role>,
    pub content: Option<Vec<char>>,
    pub sequence_number: Option<i64>,
    pub prompt_tokens: Option<Option<i64>>,
    pub completion_tokens: Option<Option<i64>>,
    pub created_at: Option<i64>,
}

impl View for MsgState {
    type V = MsgFieldsData;

    open spec fn view(&self) -> MsgFieldsData {
        MsgFieldsData {
            id: match self.id {
                Some(v) => Some(v as int),
                None => None,
            },
            topic_id: match self.topic_id {
                Some(v) => Some(v as int),
                None => None,
            },
            role: self.role,
            content: match self.content {
                Some(ref t) => Some(t@),
                None => None,
            },
            sequence_number: match self.sequence_number {
                Some(v) => Some(v as int),
                None => None,
            },
            prompt_tokens: match self.prompt_tokens {
                Some(Some(v)) => Some(Some(v as int)),
                Some(None) => Some(None),
                None => None,
            },
            completion_tokens: match self.completion_tokens {
                Some(Some(v)) => Some(Some(v as int)),
                Some(None) => Some(None),
                None => None,
            },
            created_at: match self.created_at {
                Some(v) => Some(v as int),
                None => None,
            },
        }
    }
}

/// Executable twin of [`sp_text_value`].
fn text_value(s: &[char], m: usize) -> (r: Option<(Vec<char>, usize)>)
    requires
        m <= s@.len(),
    ensures
        match r {
            Some((t, p)) => sp_text_value(s@, m as int) == Some((t@, p as int)) && m < p
                <= s@.len(),
            None => sp_text_value(s@, m as int) is None,
        },
{
    if m < s.len() && s[m] == '"' {
        parse_string_body(s, m + 1)
    } else {
        None
    }
}

/// Executable twin of [`sp_id_value`].
fn id_value(s: &[char], m: usize) -> (r: Option<(u128, usize)>)
    requires
        m <= s@.len(),
    ensures
        match r {
            Some((v, p)) => sp_id_value(s@, m as int) == Some((v as int, p as int)) && m < p
                <= s@.len(),
            None => sp_id_value(s@, m as int) is None,
        },
{
    match text_value(s, m) {
        Some((t, p)) => match parse_id(t.as_slice()) {
            Some(v) => Some((v, p)),
            None => None,
        },
        None => None,
    }
}

/// Executable twin of [`sp_int_value`].
fn int_value(s: &[char], m: usize) -> (r: Option<(i64, usize)>)
    requires
        m <= s@.len(),
    ensures
        match r {
            Some((n, p)) => sp_int_value(s@, m as int) == Some((n as int, p as int)) && m < p
                <= s@.len(),
            None => sp_int_value(s@, m as int) is None,
        },
{
    match parse_number(s, m) {
        Some((Some(n), p)) => Some((n, p)),
        Some((None, _p)) => None,
        None => None,
    }
}

/// Executable twin of [`sp_opt_int_value`].
fn opt_int_value(s: &[char], m: usize) -> (r: Option<(Option<i64>, usize)>)
    requires
        m <= s@.len(),
    ensures
        match r {
            Some((n, p)) => (sp_opt_int_value(s@, m as int) matches Some((sn, sp)) && sp
                == p as int && (match n {
                Some(x) => sn == Some(x as int),
                None => sn is None,
            })) && m < p <= s@.len(),
            None => sp_opt_int_value(s@, m as int) is None,
        },
{
    if s.len() - m >= 4 && s[m] == 'n' && s[m + 1] == 'u' && s[m + 2] == 'l' && s[m + 3] == 'l' {
        Some((None, m + 4))
    } else {
        match int_value(s, m) {
            Some((n, p)) => Some((Some(n), p)),
            None => None,
        }
    }
}

/// Executable twin of [`sp_msg_member`].
fn msg_member(s: &[char], i: usize, st: MsgState) -> (r: Option<(MsgState, usize)>)
    requires
        i <= s@.len(),
    ensures
        match r {
            Some((st2, p)) => sp_msg_member(s@, i as int, st@) == Some((st2@, p as int)) && i < p
                <= s@.len(),
            None => sp_msg_member(s@, i as int, st@) is None,
        },
{
    if !(i < s.len() && s[i] == '"') {
        return None;
    }
    let (key, j) = match parse_string_body(s, i + 1) {
        Some(kj) => kj,
        None => {
            return None;
        },
    };
    let k = skip_ws(s, j);
    if !(k < s.len() && s[k] == ':') {
        return None;
    }
    let m = skip_ws(s, k + 1);
    if chars_is(key.as_slice(), "id") {
        if st.id.is_some() {
            None
        } else {
            match id_value(s, m) {
                Some((v, p)) => Some((MsgState { id: Some(v), ..st }, p)),
                None => None,
            }
        }
    } else if chars_is(key.as_slice(), "topic_id") {
        if st.topic_id.is_some() {
            None
        } else {
            match id_value(s, m) {
                Some((v, p)) => Some((MsgState { topic_id: Some(v), ..st }, p)),
                None => None,
            }
        }
    } else if chars_is(key.as_slice(), "role") {
        if st.role.is_some() {
            None
        } else {
            match text_value(s, m) {
                Some((t, p)) => {
                    let role = if chars_is(t.as_slice(), "user") {
                        Some(Role::User)
                    } else if chars_is(t.as_slice(), "assistant") {
                        Some(Role::Assistant)
                    } else if chars_is(t.as_slice(), "system") {
                        Some(Role::System)
                    } else {
                        None
                    };
                    match role {
                        Some(role) => Some((MsgState { role: Some(role), ..st }, p)),
                        None => None,
                    }
                },
                None => None,
            }
        }
    } else if chars_is(key.as_slice(), "content") {
        if st.content.is_some() {
            None
        } else {
            match text_value(s, m) {
                Some((t, p)) => Some((MsgState { content: Some(t), ..st }, p)),
                None => None,
            }
        }
    } else if chars_is(key.as_slice(), "sequence_number") {
        if st.sequence_number.is_some() {
            None
        } else {
            match int_value(s, m) {
                Some((n, p)) => Some((MsgState { sequence_number: Some(n), ..st }, p)),
                None => None,
            }
        }
    } else if chars_is(key.as_slice(), "prompt_tokens") {
        if st.prompt_tokens.is_some() {
            None
        } else {
            match opt_int_value(s, m) {
                Some((n, p)) => Some((MsgState { prompt_tokens: Some(n), ..st }, p)),
                None => None,
            }
        }
    } else if chars_is(key.as_slice(), "completion_tokens") {
        if st.completion_tokens.is_some() {
            None
        } else {
            match opt_int_value(s, m) {
                Some((n, p)) => Some((MsgState { completion_tokens: Some(n), ..st }, p)),
                None => None,
            }
        }
    } else if chars_is(key.as_slice(), "created_at") {
        if st.created_at.is_some() {
            None
        } else {
            match int_value(s, m) {
                Some((n, p)) => Some((MsgState { created_at: Some(n), ..st }, p)),
                None => None,
            }
        }
    } else {
        match skip_value(s, m) {
            Some(p) => Some((st, p)),
            None => None,
        }
    }
}

/// Executable twin of [`sp_msg_fields`].
fn msg_fields(s: &[char], i: usize, st: MsgState) -> (r: Option<(MsgState, usize)>)
    requires
        i <= s@.len(),
    ensures
        match r {
            Some((st2, p)) => sp_msg_fields(s@, i as int, st@) == Some((st2@, p as int)) && i < p
                <= s@.len(),
            None => sp_msg_fields(s@, i as int, st@) is None,
        },
    decreases s@.len() - i,
{
    match msg_member(s, i, st) {
        None => None,
        Some((st2, p)) => {
            let q = skip_ws(s, p);
            if q < s.len() && s[q] == ',' {
                let r2 = skip_ws(s, q + 1);
                msg_fields(s, r2, st2)
            } else if q < s.len() && s[q] == '}' {
                Some((st2, q + 1))
            } else {
                None
            }
        },
    }
}

/// Executable twin of [`msg_of_fields`].
fn build_message(st: MsgState) -> (r: Option<Message>)
    ensures
        match r {
            Some(m) => msg_of_fields(st@) == Some(m@),
            None => msg_of_fields(st@) is None,
        },
{
    let MsgState {
        id,
        topic_id,
        role,
        content,
        sequence_number,
        prompt_tokens,
        completion_tokens,
        created_at,
    } = st;
    match (id, topic_id, role, content, sequence_number, created_at) {
        (Some(id), Some(topic_id), Some(role), Some(content), Some(seqn), Some(created)) => {
            let text = string_from_chars(content.as_slice());
            let ptoks = match prompt_tokens {
                Some(x) => x,
                None => None,
            };
            let ctoks = match completion_tokens {
                Some(x) => x,
                None => None,
            };
            Some(
                Message {
                    id,
                    topic_id,
                    role,
                    content: text,
                    sequence_number: seqn,
                    prompt_tokens: ptoks,
                    completion_tokens: ctoks,
                    created_at: created,
                },
            )
        },
        _ => None,
    }
}

/// No message field seen yet.
fn msg_state_init() -> (st: MsgState)
    ensures
        st@ == msg_fields_init(),
{
    MsgState {
        id: None,
        topic_id: None,
        role: None,
        content: None,
        sequence_number: None,
        prompt_tokens: None,
        completion_tokens: None,
        created_at: None,
    }
}

/// Executable twin of [`sp_messages`].
fn parse_messages(s: &[char], i: usize) -> (r: Option<(Vec<Message>, usize)>)
    requires
        i <= s@.len(),
    ensures
        match r {
            Some((v, p)) => sp_messages(s@, i as int) == Some((msgs_view(v@), p as int)) && i < p
                <= s@.len(),
            None => sp_messages(s@, i as int) is None,
        },
    decreases s@.len() - i,
{
    if !(i < s.len() && s[i] == '{') {
        return None;
    }
    let m = skip_ws(s, i + 1);
    if m < s.len() && s[m] == '}' {
        return None;
    }
    match msg_fields(s, m, msg_state_init()) {
        None => None,
        Some((st, e)) => match build_message(st) {
            None => None,
            Some(msg) => {
                let q = skip_ws(s, e);
                if q < s.len() && s[q] == ',' {
                    let r2 = skip_ws(s, q + 1);
                    match parse_messages(s, r2) {
                        Some((rest, end)) => {
                            let ghost old_rest = rest@;
                            let mut v = rest;
                            v.insert(0, msg);
                            proof {
                                assert(msgs_view(v@) =~= seq![msg@] + msgs_view(old_rest));
                            }
                            Some((v, end))
                        },
                        None => None,
                    }
                } else if q < s.len() && s[q] == ']' {
                    let mut v: Vec<Message> = Vec::new();
                    v.push(msg);
                    proof {
                        assert(msgs_view(v@) =~= seq![msg@]);
                    }
                    Some((v, q + 1))
                } else {
                    None
                }
            },
        },
    }
}

/// Executable fields of the frame object being read.
pub struct FrameState {
    pub command: Option<Vec<char>>,
    pub prev: Option<Option<Vec<Message>>>,
    pub topic: Option<Option<u128>>,
}

impl View for FrameState {
    type V = FrameFieldsData;

    open spec fn view(&self) -> FrameFieldsData {
        FrameFieldsData {
            command: match self.command {
                Some(ref t) => Some(t@),
                None => None,
            },
            prev: match self.prev {
                Some(Some(ref v)) => Some(Some(msgs_view(v@))),
                Some(None) => Some(None),
                None => None,
            },
            topic: match self.topic {
                Some(Some(v)) => Some(Some(v as int)),
                Some(None) => Some(None),
                None => None,
            },
        }
    }
}

/// Executable twin of [`sp_frame_member`].
fn frame_member(s: &[char], i: usize, st: FrameState) -> (r: Option<(FrameState, usize)>)
    requires
        i <= s@.len(),
    ensures
        match r {
            Some((st2, p)) => sp_frame_member(s@, i as int, st@) == Some((st2@, p as int)) && i
                < p <= s@.len(),
            None => sp_frame_member(s@, i as int, st@) is None,
        },
{
    if !(i < s.len() && s[i] == '"') {
        return None;
    }
    let (key, j) = match parse_string_body(s, i + 1) {
        Some(kj) => kj,
        None => {
            return None;
        },
    };
    let k = skip_ws(s, j);
    if !(k < s.len() && s[k] == ':') {
        return None;
    }
    let m = skip_ws(s, k + 1);
    if chars_is(key.as_slice(), "command") {
        if st.command.is_some() {
            None
        } else {
            match text_value(s, m) {
                Some((t, p)) => Some((FrameState { command: Some(t), ..st }, p)),
                None => None,
            }
        }
    } else if chars_is(key.as_slice(), "previous_messages") {
        if st.prev.is_some() {
            None
        } else if s.len() - m >= 4 && s[m] == 'n' && s[m + 1] == 'u' && s[m + 2] == 'l' && s[m + 3]
            == 'l' {
            Some((FrameState { prev: Some(None), ..st }, m + 4))
        } else if m < s.len() && s[m] == '[' {
            let w = skip_ws(s, m + 1);
            if w < s.len() && s[w] == ']' {
                let v: Vec<Message> = Vec::new();
                proof {
                    assert(msgs_view(v@) =~= Seq::<MessageData>::empty());
                }
                Some((FrameState { prev: Some(Some(v)), ..st }, w + 1))
            } else {
                match parse_messages(s, w) {
                    Some((msgs, p)) => Some((FrameState { prev: Some(Some(msgs)), ..st }, p)),
                    None => None,
                }
            }
        } else {
            None
        }
    } else if chars_is(key.as_slice(), "topic_id") {
        if st.topic.is_some() {
            None
        } else if s.len() - m >= 4 && s[m] == 'n' && s[m + 1] == 'u' && s[m + 2] == 'l' && s[m + 3]
            == 'l' {
            Some((FrameState { topic: Some(None), ..st }, m + 4))
        } else {
            match id_value(s, m) {
                Some((v, p)) => Some((FrameState { topic: Some(Some(v)), ..st }, p)),
                None => None,
            }
        }
    } else {
        match skip_value(s, m) {
            Some(p) => Some((st, p)),
            None => None,
        }
    }
}

/// Executable twin of [`sp_frame_fields`].
fn frame_fields(s: &[char], i: usize, st: FrameState) -> (r: Option<(FrameState, usize)>)
    requires
        i <= s@.len(),
    ensures
        match r {
            Some((st2, p)) => sp_frame_fields(s@, i as int, st@) == Some((st2@, p as int)) && i
                < p <= s@.len(),
            None => sp_frame_fields(s@, i as int, st@) is None,
        },
    decreases s@.len() - i,
{
    match frame_member(s, i, st) {
        None => None,
        Some((st2, p)) => {
            let q = skip_ws(s, p);
            if q < s.len() && s[q] == ',' {
                let r2 = skip_ws(s, q + 1);
                frame_fields(s, r2, st2)
            } else if q < s.len() && s[q] == '}' {
                Some((st2, q + 1))
            } else {
                None
            }
        },
    }
}

/// No frame field seen yet.
fn frame_state_init() -> (st: FrameState)
    ensures
        st@ == frame_fields_init(),
{
    FrameState { command: None, prev: None, topic: None }
}

/// The command keywords differ from one another.
proof fn lemma_cmd_words_distinct()
    ensures
        "ping"@ != "prompt"@,
        "prompt"@ != "regenerateMessage"@,
        "prompt"@ != "changeTopic"@,
        "prompt"@ != "stop"@,
        "changeTopic"@ != "stop"@,
{
    reveal_strlit("ping");
    reveal_strlit("prompt");
    reveal_strlit("regenerateMessage");
    reveal_strlit("changeTopic");
    reveal_strlit("stop");
    assert("ping"@.len() == 4);
    assert("prompt"@.len() == 6);
    assert("regenerateMessage"@.len() == 17);
    assert("changeTopic"@.len() == 11);
    assert("stop"@.len() == 4);
}

/// Executable twin of [`sp_classify`].
fn classify(st: FrameState) -> (c: Command)
    ensures
        c@ == sp_classify(st@),
{
    proof {
        lemma_cmd_words_distinct();
    }
    let FrameState { command, prev, topic } = st;
    match command {
        None => Command::Invalid("Invalid message".to_owned()),
        Some(cmd) => {
            if chars_is(cmd.as_slice(), "ping") {
                Command::Ping
            } else if chars_is(cmd.as_slice(), "prompt") {
                match prev {
                    Some(Some(msgs)) => {
                        if msgs.len() > 0 {
                            Command::Prompt(msgs)
                        } else {
                            Command::Invalid("Missing properties".to_owned())
                        }
                    },
                    _ => Command::Invalid("Missing properties".to_owned()),
                }
            } else if chars_is(cmd.as_slice(), "regenerateMessage") {
                Command::RegenerateMessage
            } else if chars_is(cmd.as_slice(), "changeTopic") {
                match topic {
                    Some(Some(t)) => Command::ChangeTopic(t),
                    _ => Command::Invalid("Missing properties".to_owned()),
                }
            } else if chars_is(cmd.as_slice(), "stop") {
                Command::Stop
            } else {
                Command::Invalid("Missing properties".to_owned())
            }
        },
    }
}

/// The command decoded from the characters of one text frame.
pub fn decode_frame_chars(text: &[char]) -> (c: Command)
    ensures
        c@ == sp_decode_frame(text@),
{
    let i = skip_ws(text, 0);
    if !(i < text.len() && text[i] == '{') {
        return Command::Invalid("Invalid message".to_owned());
    }
    let k = skip_ws(text, i + 1);
    if k < text.len() && text[k] == '}' {
        if skip_ws(text, k + 1) == text.len() {
            classify(frame_state_init())
        } else {
            Command::Invalid("Invalid message".to_owned())
        }
    } else {
        match frame_fields(text, k, frame_state_init()) {
            None => Command::Invalid("Invalid message".to_owned()),
            Some((st, e)) => {
                if skip_ws(text, e) == text.len() {
                    classify(st)
                } else {
                    Command::Invalid("Invalid message".to_owned())
                }
            },
        }
    }
}

/// The command decoded from one text frame.
pub fn decode_frame(text: &str) -> (c: Command)
    ensures
        c@ == sp_decode_frame(text@),
{
    let chars = chars_of(text);
    decode_frame_chars(chars.as_slice())
}

/// Decoding is a function of the frame characters alone: the same frame
/// decodes to the same command, however often it is read.
pub proof fn lemma_decode_deterministic(a: Seq<char>, b: Seq<char>)
    requires
        a == b,
    ensures
        sp_decode_frame(a) == sp_decode_frame(b),
{
}

/// One transport-level frame as handed to the session.
#[derive(Debug, Clone, PartialEq)]
pub enum InboundFrame {
    Ping,
    Text(String),
    Binary,
    Close,
    Continuation,
    Nop,
    Pong,
}

/// Mathematical image of an [`InboundFrame`].
pub enum InboundFrameData {
    Ping,
    Text(Seq<char>),
    Binary,
    Close,
    Continuation,
    Nop,
    Pong,
}

impl View for InboundFrame {
    type V = InboundFrameData;

    open spec fn view(&self) -> InboundFrameData {
        match self {
            InboundFrame::Ping => InboundFrameData::Ping,
            InboundFrame::Text(t) => InboundFrameData::Text(t@),
            InboundFrame::Binary => InboundFrameData::Binary,
            InboundFrame::Close => InboundFrameData::Close,
            InboundFrame::Continuation => InboundFrameData::Continuation,
            InboundFrame::Nop => InboundFrameData::Nop,
            InboundFrame::Pong => InboundFrameData::Pong,
        }
    }
}

/// The command a transport frame stands for: a transport ping is a `Ping`,
/// a text frame is decoded, anything else is invalid.
pub open spec fn sp_command_of_frame(f: InboundFrameData) -> CommandData {
    match f {
        InboundFrameData::Ping => CommandData::Ping,
        InboundFrameData::Text(t) => sp_decode_frame(t),
        InboundFrameData::Binary => CommandData::Invalid("Binary not a valid operation"@),
        InboundFrameData::Close => CommandData::Invalid("Close not a operation"@),
        InboundFrameData::Continuation => CommandData::Invalid("Continuation not a operation"@),
        InboundFrameData::Nop => CommandData::Invalid("Nop not a operation"@),
        InboundFrameData::Pong => CommandData::Invalid("Pong not a operation"@),
    }
}

/// Executable twin of [`sp_command_of_frame`].
pub fn command_of_frame(f: &InboundFrame) -> (c: Command)
    ensures
        c@ == sp_command_of_frame(f@),
{
    match f {
        InboundFrame::Ping => Command::Ping,
        InboundFrame::Text(t) => decode_frame(t.as_str()),
        InboundFrame::Binary => Command::Invalid("Binary not a valid operation".to_owned()),
        InboundFrame::Close => Command::Invalid("Close not a operation".to_owned()),
        InboundFrame::Continuation => Command::Invalid(
            "Continuation not a operation".to_owned(),
        ),
        InboundFrame::Nop => Command::Invalid("Nop not a operation".to_owned()),
        InboundFrame::Pong => Command::Invalid("Pong not a operation".to_owned()),
    }
}

} // verus!

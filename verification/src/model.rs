//! The conversation data model: messages, their roles, and topics.
//!
//! Identifiers are held as their 128-bit values; timestamps as milliseconds.
use vstd::prelude::*;

verus! {

/// The author of one conversation turn.
#[derive(Clone, Copy, PartialEq, Eq, Structural, Debug)]
pub enum Role {
    User,
    Assistant,
    System,
}

/// One turn of a conversation, ordered within its topic by
/// `sequence_number`.
#[derive(Clone, Debug, PartialEq)]
pub struct Message {
    pub id: u128,
    pub topic_id: u128,
    pub role: Role,
    pub content: String,
    pub sequence_number: i64,
    pub prompt_tokens: Option<i64>,
    pub completion_tokens: Option<i64>,
    pub created_at: i64,
}

/// Mathematical image of a [`Message`].
pub struct MessageData {
    pub id: int,
    pub topic_id: int,
    pub role: Role,
    pub content: Seq<char>,
    pub sequence_number: int,
    pub prompt_tokens: Option<int>,
    pub completion_tokens: Option<int>,
    pub created_at: int,
}

impl View for Message {
    type V = MessageData;

    open spec fn view(&self) -> MessageData {
        MessageData {
            id: self.id as int,
            topic_id: self.topic_id as int,
            role: self.role,
            content: self.content@,
            sequence_number: self.sequence_number as int,
            prompt_tokens: match self.prompt_tokens {
                Some(n) => Some(n as int),
                None => None,
            },
            completion_tokens: match self.completion_tokens {
                Some(n) => Some(n as int),
                None => None,
            },
            created_at: self.created_at as int,
        }
    }
}

impl Message {
    /// A new message with the given attributes.
    pub fn from_details(
        content: String,
        topic_id: u128,
        sequence_number: i64,
        role: Role,
        prompt_tokens: Option<i64>,
        completion_tokens: Option<i64>,
        id: u128,
        created_at: i64,
    ) -> (m: Message)
        ensures
            m@ == (MessageData {
                id: id as int,
                topic_id: topic_id as int,
                role,
                content: content@,
                sequence_number: sequence_number as int,
                prompt_tokens: match prompt_tokens {
                    Some(n) => Some(n as int),
                    None => None,
                },
                completion_tokens: match completion_tokens {
                    Some(n) => Some(n as int),
                    None => None,
                },
                created_at: created_at as int,
            }),
    {
        Message { id, topic_id, role, content, sequence_number, prompt_tokens, completion_tokens, created_at }
    }

    /// A copy of this message, equal in every attribute.
    pub fn duplicate(&self) -> (m: Message)
        ensures
            m@ == self@,
    {
        Message {
            id: self.id,
            topic_id: self.topic_id,
            role: self.role,
            content: self.content.clone(),
            sequence_number: self.sequence_number,
            prompt_tokens: self.prompt_tokens,
            completion_tokens: self.completion_tokens,
            created_at: self.created_at,
        }
    }
}

/// The user's new turn for a topic whose history holds `prior_len`
/// messages: it follows them in sequence.
pub fn prepare_user_message(
    content: String,
    topic_id: u128,
    prior_len: usize,
    id: u128,
    created_at: i64,
) -> (m: Message)
    requires
        prior_len + 1 <= i64::MAX,
    ensures
        m@.content == content@,
        m@.topic_id == topic_id as int,
        m@.role == Role::User,
        m@.sequence_number == prior_len as int + 1,
        m@.prompt_tokens is None,
        m@.completion_tokens is None,
        m@.id == id as int,
        m@.created_at == created_at as int,
{
    Message {
        id,
        topic_id,
        role: Role::User,
        content,
        sequence_number: prior_len as i64 + 1,
        prompt_tokens: None,
        completion_tokens: None,
        created_at,
    }
}

/// One history entry in the completion provider's wire format: a role and
/// its text, in history order.
#[derive(Debug, Clone, PartialEq)]
pub struct WireMessage {
    pub role: Role,
    pub content: String,
}

/// Mathematical image of a [`WireMessage`].
pub struct WireMessageData {
    pub role: Role,
    pub content: Seq<char>,
}

impl View for WireMessage {
    type V = WireMessageData;

    open spec fn view(&self) -> WireMessageData {
        WireMessageData { role: self.role, content: self.content@ }
    }
}

/// A named conversation thread owned by a user.
#[derive(Clone, Debug, PartialEq)]
pub struct Topic {
    pub id: u128,
    pub user_id: u128,
    pub name: String,
    pub created_at: i64,
}

/// Mathematical image of a [`Topic`].
pub struct TopicData {
    pub id: int,
    pub user_id: int,
    pub name: Seq<char>,
    pub created_at: int,
}

impl View for Topic {
    type V = TopicData;

    open spec fn view(&self) -> TopicData {
        TopicData {
            id: self.id as int,
            user_id: self.user_id as int,
            name: self.name@,
            created_at: self.created_at as int,
        }
    }
}

impl Topic {
    /// Whether the topic belongs to the user.
    pub fn owned_by(&self, user_id: u128) -> (r: bool)
        ensures
            r == (self.user_id == user_id),
    {
        self.user_id == user_id
    }
}

/// A request to append a prompt to a topic and stream its completion.
#[derive(Debug, Clone, PartialEq)]
pub struct CreateMessageData {
    pub new_message_content: String,
    pub topic_id: u128,
}

/// A request to regenerate the reply from a message onward.
#[derive(Debug, Clone, Copy, PartialEq, Eq, Structural)]
pub struct RegenerateMessageData {
    pub message_id: u128,
    pub topic_id: u128,
}

} // verus!

//! The session protocol state machine and the completion orchestrator.
//!
//! One value of [`Session`] owns one client connection's state: the
//! authenticated user, the current topic, the liveness deadline, and the
//! at-most-one in-flight generation.  Each inbound command and each event of
//! an in-flight generation is one method; the connection task performs the
//! returned actions (send a frame, open or cancel a provider stream,
//! persist a message) and feeds the results back in.
//!
//! Policy choices this module fixes (the wire protocol leaves them open):
//! a `prompt` arriving while a generation is in flight is rejected with an
//! error frame, and switching topics never cancels an in-flight generation.
use crate::ids::{fresh_id, now_millis};
use crate::model::{Message, Role, WireMessage};
use crate::text::string_push_str;
use crate::wire::{OutboundFrame, OutboundFrameData};
use vstd::prelude::*;

verus! {

/// Milliseconds of liveness silence after which a connection is torn down.
pub const LIVENESS_TIMEOUT_MS: u64 = 10000;

/// The lifecycle of one connection.
#[derive(Clone, Copy, Debug, PartialEq, Eq, Structural)]
pub enum SessionState {
    Connected,
    Generating,
    Closing,
    Closed,
}

/// The concatenation of a sequence of texts, in order.
pub open spec fn concat_all(parts: Seq<Seq<char>>) -> Seq<char>
    decreases parts.len(),
{
    if parts.len() == 0 {
        Seq::empty()
    } else {
        concat_all(parts.drop_last()) + parts.last()
    }
}

/// Appending one part extends the concatenation by exactly that part.
pub proof fn lemma_concat_all_push(parts: Seq<Seq<char>>, part: Seq<char>)
    ensures
        concat_all(parts.push(part)) == concat_all(parts) + part,
{
    assert(parts.push(part).drop_last() =~= parts);
    assert(parts.push(part).last() == part);
}

/// One in-flight generation: the accumulating reply and its token count,
/// together with the texts of the `chatMessage` frames emitted so far.
pub struct Generation {
    pub topic_id: u128,
    pub base_len: usize,
    pub acc: String,
    pub tokens: u64,
    pub emitted: Ghost<Seq<Seq<char>>>,
}

impl Generation {
    /// The accumulator is exactly the concatenation of what was emitted,
    /// and the counter counts the emitted frames.
    pub open spec fn wf(self) -> bool {
        &&& self.acc@ == concat_all(self.emitted@)
        &&& self.tokens == self.emitted@.len()
    }
}

/// The state a session holds for one live connection.
pub struct Session {
    pub user_id: u128,
    pub current_topic_id: Option<u128>,
    pub last_ack_ms: u64,
    pub state: SessionState,
    pub generation: Option<Generation>,
}

/// Whether a liveness check at `now_ms` tears the connection down.
pub open spec fn tick_closes(s: Session, now_ms: u64) -> bool {
    &&& (s.state is Connected || s.state is Generating)
    &&& now_ms as int > s.last_ack_ms as int + LIVENESS_TIMEOUT_MS as int
}

/// The session after a liveness check at `now_ms`.
pub open spec fn tick_next(s: Session, now_ms: u64) -> Session {
    if tick_closes(s, now_ms) {
        Session { state: SessionState::Closing, generation: None, ..s }
    } else {
        s
    }
}

impl Session {
    /// A session is `Generating` exactly when it holds a generation, and
    /// that generation accounts for its emitted frames.
    pub open spec fn wf(self) -> bool {
        &&& (self.state is Generating <==> self.generation is Some)
        &&& (self.generation matches Some(g) ==> g.wf())
    }

    /// A fresh session for a connection opened at `now_ms`.
    pub fn new(user_id: u128, current_topic_id: Option<u128>, now_ms: u64) -> (s: Session)
        ensures
            s.wf(),
            s.user_id == user_id,
            s.current_topic_id == current_topic_id,
            s.last_ack_ms == now_ms,
            s.state is Connected,
            s.generation is None,
    {
        Session {
            user_id,
            current_topic_id,
            last_ack_ms: now_ms,
            state: SessionState::Connected,
            generation: None,
        }
    }

    /// A liveness probe at `now_ms`: the deadline is reset; the caller
    /// acknowledges on the transport.
    pub fn on_ping(&mut self, now_ms: u64)
        ensures
            *final(self) == (Session { last_ack_ms: now_ms, ..*old(self) }),
            old(self).wf() ==> final(self).wf(),
    {
        self.last_ack_ms = now_ms;
    }

    /// The periodic liveness check: true exactly when the connection must
    /// now be torn down, which happens at most once (see
    /// [`lemma_no_double_close`]).
    pub fn on_tick(&mut self, now_ms: u64) -> (close: bool)
        ensures
            close == tick_closes(*old(self), now_ms),
            *final(self) == tick_next(*old(self), now_ms),
            old(self).wf() ==> final(self).wf(),
    {
        let live = match self.state {
            SessionState::Connected => true,
            SessionState::Generating => true,
            _ => false,
        };
        if live && now_ms > LIVENESS_TIMEOUT_MS && now_ms - LIVENESS_TIMEOUT_MS > self.last_ack_ms
        {
            self.state = SessionState::Closing;
            self.generation = None;
            true
        } else {
            false
        }
    }

    /// The transport has closed: the session is terminal.
    pub fn on_closed(&mut self)
        ensures
            *final(self) == (Session {
                state: SessionState::Closed,
                generation: None,
                ..*old(self)
            }),
            final(self).wf(),
    {
        self.state = SessionState::Closed;
        self.generation = None;
    }

    /// An invalid inbound frame: one error frame carrying the reason, and —
    /// witnessed by `&self` — no state change.
    pub fn on_invalid(&self, reason: String) -> (out: OutboundFrame)
        ensures
            out@ == OutboundFrameData::Error(reason@),
    {
        OutboundFrame::Error(reason)
    }

    /// A topic switch: refused without ownership, the topic unchanged and an
    /// authorization error emitted; with ownership the current topic becomes
    /// `topic_id` and the topic's messages are returned, unless the fetch
    /// failed, in which case nothing changes.  An in-flight generation is
    /// never cancelled here.
    pub fn on_change_topic(
        &mut self,
        topic_id: u128,
        owns_topic: bool,
        fetched: Result<Vec<Message>, String>,
    ) -> (out: OutboundFrame)
        ensures
            !owns_topic ==> *final(self) == *old(self) && out@ == OutboundFrameData::Error(
                "User does not own topic"@,
            ),
            owns_topic && fetched is Ok ==> *final(self) == (Session {
                current_topic_id: Some(topic_id),
                ..*old(self)
            }) && out@ == OutboundFrameData::Messages(
                crate::frame::msgs_view(fetched->Ok_0@),
            ),
            owns_topic && fetched is Err ==> *final(self) == *old(self) && out@
                == OutboundFrameData::Error(fetched->Err_0@),
            old(self).wf() ==> final(self).wf(),
    {
        if !owns_topic {
            return OutboundFrame::Error("User does not own topic".to_owned());
        }
        match fetched {
            Ok(messages) => {
                self.current_topic_id = Some(topic_id);
                OutboundFrame::Messages(messages)
            },
            Err(text) => OutboundFrame::Error(text),
        }
    }

    /// A prompt: in `Connected`, a generation begins for the topic of the
    /// history's first message and the history is returned in the provider's
    /// wire format, order kept.  In any other state nothing changes and an
    /// error frame is returned: a second prompt while one generation is in
    /// flight is rejected, not queued.
    pub fn on_prompt(&mut self, history: &Vec<Message>) -> (r: Result<Vec<WireMessage>,
        OutboundFrame>)
        requires
            old(self).wf(),
            history@.len() > 0,
        ensures
            final(self).wf(),
            old(self).state is Connected ==> {
                &&& r matches Ok(wire)
                &&& wire@.len() == history@.len()
                &&& forall|i: int|
                    0 <= i < history@.len() ==> #[trigger] wire@[i]@.role == history@[i].role
                        && wire@[i]@.content == history@[i].content@
                &&& final(self).state is Generating
                &&& final(self).generation matches Some(g) && g.topic_id == history@[0].topic_id
                    && g.base_len == history@.len() && g.acc@ == Seq::<char>::empty() && g.tokens
                    == 0 && g.emitted@ == Seq::<Seq<char>>::empty()
                &&& final(self).user_id == old(self).user_id
                &&& final(self).current_topic_id == old(self).current_topic_id
                &&& final(self).last_ack_ms == old(self).last_ack_ms
            },
            old(self).state is Generating ==> *final(self) == *old(self) && (r matches Err(f)
                && f@ == OutboundFrameData::Error("A completion is already in progress"@)),
            (old(self).state is Closing || old(self).state is Closed) ==> *final(self) == *old(
                self,
            ) && (r matches Err(f) && f@ == OutboundFrameData::Error("Connection is closing"@)),
    {
        match self.state {
            SessionState::Connected => {},
            SessionState::Generating => {
                return Err(
                    OutboundFrame::Error("A completion is already in progress".to_owned()),
                );
            },
            _ => {
                return Err(OutboundFrame::Error("Connection is closing".to_owned()));
            },
        }
        let mut wire: Vec<WireMessage> = Vec::new();
        let mut i: usize = 0;
        while i < history.len()
            invariant
                i <= history@.len(),
                wire@.len() == i,
                forall|j: int|
                    0 <= j < i ==> #[trigger] wire@[j]@.role == history@[j].role
                        && wire@[j]@.content == history@[j].content@,
            decreases history@.len() - i,
        {
            let m = &history[i];
            wire.push(WireMessage { role: m.role, content: m.content.clone() });
            i = i + 1;
        }
        self.state = SessionState::Generating;
        self.generation = Some(
            Generation {
                topic_id: history[0].topic_id,
                base_len: history.len(),
                acc: String::new(),
                tokens: 0,
                emitted: Ghost(Seq::empty()),
            },
        );
        Ok(wire)
    }

    /// One token from the provider: while `Generating` it is appended to
    /// the accumulator and echoed as one `chatMessage` frame; in any other
    /// state — the generation was cancelled or failed — it is discarded and
    /// nothing is emitted.
    pub fn on_provider_token(&mut self, token: String) -> (out: Option<OutboundFrame>)
        requires
            old(self).wf(),
            old(self).generation matches Some(g) ==> g.tokens < u64::MAX,
        ensures
            final(self).wf(),
            old(self).state is Generating ==> {
                &&& out matches Some(f) && f@ == OutboundFrameData::ChatMessage(token@)
                &&& final(self).state is Generating
                &&& final(self).generation matches Some(g2)
                    && old(self).generation matches Some(g1) && {
                    &&& g2.acc@ == g1.acc@ + token@
                    &&& g2.tokens == g1.tokens + 1
                    &&& g2.emitted@ == g1.emitted@.push(token@)
                    &&& g2.topic_id == g1.topic_id
                    &&& g2.base_len == g1.base_len
                }
                &&& final(self).user_id == old(self).user_id
                &&& final(self).current_topic_id == old(self).current_topic_id
                &&& final(self).last_ack_ms == old(self).last_ack_ms
            },
            !(old(self).state is Generating) ==> *final(self) == *old(self) && out is None,
    {
        match &mut self.generation {
            Some(g) => {
                proof {
                    lemma_concat_all_push(g.emitted@, token@);
                }
                string_push_str(&mut g.acc, token.as_str());
                g.tokens = g.tokens + 1;
                g.emitted = Ghost(g.emitted@.push(token@));
                Some(OutboundFrame::ChatMessage(token))
            },
            None => None,
        }
    }

    /// A cancellation request: while `Generating` the generation is dropped
    /// and the session returns to `Connected` — nothing further is emitted
    /// and nothing is persisted for the cancelled attempt; otherwise a
    /// no-op.  True exactly when the caller must cancel the provider stream.
    pub fn on_stop(&mut self) -> (cancelled: bool)
        ensures
            old(self).state is Generating ==> cancelled && *final(self) == (Session {
                state: SessionState::Connected,
                generation: None,
                ..*old(self)
            }),
            !(old(self).state is Generating) ==> !cancelled && *final(self) == *old(self),
            old(self).wf() ==> final(self).wf(),
    {
        match self.state {
            SessionState::Generating => {
                self.state = SessionState::Connected;
                self.generation = None;
                true
            },
            _ => false,
        }
    }

    /// A provider failure mid-stream: the generation is abandoned — nothing
    /// is persisted — one error frame is emitted, and the session returns
    /// to `Connected`; outside `Generating` a no-op.
    pub fn on_provider_error(&mut self) -> (out: Option<OutboundFrame>)
        ensures
            old(self).state is Generating ==> (out matches Some(f) && f@
                == OutboundFrameData::Error("Completion provider error"@)) && *final(self)
                == (Session {
                state: SessionState::Connected,
                generation: None,
                ..*old(self)
            }),
            !(old(self).state is Generating) ==> out is None && *final(self) == *old(self),
            old(self).wf() ==> final(self).wf(),
    {
        match self.state {
            SessionState::Generating => {
                self.state = SessionState::Connected;
                self.generation = None;
                Some(OutboundFrame::Error("Completion provider error".to_owned()))
            },
            _ => None,
        }
    }

    /// Stream exhaustion: the assistant message to persist.  Its content is
    /// exactly the concatenation, in order, of the `chatMessage` frames
    /// emitted for this generation, and its token count is their number; it
    /// follows the prompt history in sequence.  The session returns to
    /// `Connected`.  Outside `Generating` a no-op.
    pub fn on_stream_complete(&mut self, message_id: u128, created_at_ms: i64) -> (r: Option<
        Message,
    >)
        requires
            old(self).wf(),
            old(self).generation matches Some(g) ==> g.base_len < i64::MAX && g.tokens
                <= i64::MAX as u64,
        ensures
            final(self).wf(),
            old(self).state is Generating ==> (r matches Some(m)
                && old(self).generation matches Some(g) && {
                &&& m@.id == message_id as int
                &&& m@.topic_id == g.topic_id as int
                &&& m@.role == Role::Assistant
                &&& m@.content == concat_all(g.emitted@)
                &&& m@.sequence_number == g.base_len as int + 1
                &&& m@.prompt_tokens == Some(0int)
                &&& m@.completion_tokens == Some(g.emitted@.len() as int)
                &&& m@.created_at == created_at_ms as int
            }) && *final(self) == (Session {
                state: SessionState::Connected,
                generation: None,
                ..*old(self)
            }),
            !(old(self).state is Generating) ==> r is None && *final(self) == *old(self),
    {
        let gen = match self.generation.take() {
            Some(g) => g,
            None => {
                return None;
            },
        };
        self.state = SessionState::Connected;
        let tokens = gen.tokens as i64;
        let message = Message {
            id: message_id,
            topic_id: gen.topic_id,
            role: Role::Assistant,
            content: gen.acc,
            sequence_number: gen.base_len as i64 + 1,
            prompt_tokens: Some(0),
            completion_tokens: Some(tokens),
            created_at: created_at_ms,
        };
        Some(message)
    }

    /// [`Self::on_stream_complete`] with a fresh identifier and the clock;
    /// every other attribute of the returned message is pinned the same way.
    pub fn complete_generation(&mut self) -> (r: Option<Message>)
        requires
            old(self).wf(),
            old(self).generation matches Some(g) ==> g.base_len < i64::MAX && g.tokens
                <= i64::MAX as u64,
        ensures
            final(self).wf(),
            old(self).state is Generating ==> (r matches Some(m)
                && old(self).generation matches Some(g) && {
                &&& m@.topic_id == g.topic_id as int
                &&& m@.role == Role::Assistant
                &&& m@.content == concat_all(g.emitted@)
                &&& m@.sequence_number == g.base_len as int + 1
                &&& m@.prompt_tokens == Some(0int)
                &&& m@.completion_tokens == Some(g.emitted@.len() as int)
            }) && *final(self) == (Session {
                state: SessionState::Connected,
                generation: None,
                ..*old(self)
            }),
            !(old(self).state is Generating) ==> r is None && *final(self) == *old(self),
    {
        let id = fresh_id();
        let now = now_millis();
        self.on_stream_complete(id, now)
    }

    /// The frame reporting that a completed message could not be saved; the
    /// already-delivered tokens are not retracted, and — witnessed by
    /// `&self` — the session state does not change.
    pub fn on_persist_failure(&self) -> (out: OutboundFrame)
        ensures
            out@ == OutboundFrameData::Error("Failed to save message"@),
    {
        OutboundFrame::Error("Failed to save message".to_owned())
    }
}

/// Once a liveness check has requested the close, the session is `Closing`:
/// no later check requests a second close, and no later check moves the
/// session again.
pub proof fn lemma_no_double_close(s: Session, t1: u64, t2: u64)
    requires
        tick_closes(s, t1),
    ensures
        !tick_closes(tick_next(s, t1), t2),
        tick_next(tick_next(s, t1), t2) == tick_next(s, t1),
{
}

/// The texts of a sequence of tokens.
pub open spec fn token_views(toks: Seq<String>) -> Seq<Seq<char>> {
    Seq::new(toks.len(), |i: int| toks[i]@)
}

/// One whole generation, given the provider's tokens: the `chatMessage`
/// frames sent to the client — one per token, in arrival order — and the
/// assistant message persisted on completion, whose content is exactly the
/// concatenation of those frames' texts and whose token count is their
/// number.
pub fn run_generation(
    history: &Vec<Message>,
    tokens: &Vec<String>,
    message_id: u128,
    created_at_ms: i64,
) -> (r: (Vec<OutboundFrame>, Message))
    requires
        0 < history@.len() < i64::MAX,
        tokens@.len() <= i64::MAX as u64,
    ensures
        r.0@.len() == tokens@.len(),
        forall|i: int|
            0 <= i < tokens@.len() ==> #[trigger] r.0@[i]@ == OutboundFrameData::ChatMessage(
                tokens@[i]@,
            ),
        r.1@.content == concat_all(token_views(tokens@)),
        r.1@.completion_tokens == Some(tokens@.len() as int),
        r.1@.sequence_number == history@.len() as int + 1,
        r.1@.topic_id == history@[0].topic_id as int,
        r.1@.role == Role::Assistant,
        r.1@.prompt_tokens == Some(0int),
        r.1@.id == message_id as int,
        r.1@.created_at == created_at_ms as int,
{
    let mut session = Session::new(0, None, 0);
    let _wire = match session.on_prompt(history) {
        Ok(w) => w,
        Err(_) => vstd::pervasive::unreached(),
    };
    proof {
        assert(token_views(tokens@).take(0) =~= Seq::<Seq<char>>::empty());
    }
    let mut frames: Vec<OutboundFrame> = Vec::new();
    let mut i: usize = 0;
    while i < tokens.len()
        invariant
            session.wf(),
            session.state is Generating,
            session.generation matches Some(g) && g.topic_id == history@[0].topic_id
                && g.base_len == history@.len() && g.tokens == i && g.emitted@ == token_views(
                tokens@,
            ).take(i as int),
            0 < history@.len() < i64::MAX,
            tokens@.len() <= i64::MAX as u64,
            i <= tokens@.len(),
            frames@.len() == i,
            forall|j: int|
                0 <= j < i ==> #[trigger] frames@[j]@ == OutboundFrameData::ChatMessage(
                    tokens@[j]@,
                ),
        decreases tokens@.len() - i,
    {
        let tok = tokens[i].clone();
        proof {
            assert(token_views(tokens@).take(i + 1) =~= token_views(tokens@).take(
                i as int,
            ).push(tokens@[i as int]@));
        }
        match session.on_provider_token(tok) {
            Some(f) => frames.push(f),
            None => {
                proof {
                    assert(false);
                }
            },
        }
        i = i + 1;
    }
    proof {
        assert(token_views(tokens@).take(tokens@.len() as int) =~= token_views(tokens@));
    }
    let message = match session.on_stream_complete(message_id, created_at_ms) {
        Some(m) => m,
        None => vstd::pervasive::unreached(),
    };
    (frames, message)
}

/// First index in `h` of the message with the given identifier.
pub open spec fn sp_first_idx(h: Seq<Message>, id: int, i: int) -> Option<int>
    decreases h.len() - i,
{
    if !(0 <= i && i < h.len()) {
        None
    } else if h[i].id as int == id {
        Some(i)
    } else {
        sp_first_idx(h, id, i + 1)
    }
}

/// The prefix of the history strictly before the first message with
/// identifier `message_id` — what regeneration re-runs the orchestrator on,
/// after the store has deleted that message and its successors.  `None`
/// when no message has that identifier.
pub fn truncate_history_at(history: &Vec<Message>, message_id: u128) -> (r: Option<Vec<Message>>)
    ensures
        match r {
            Some(v) => sp_first_idx(history@, message_id as int, 0) == Some(v@.len() as int)
                && (forall|j: int| 0 <= j < v@.len() ==> #[trigger] v@[j]@ == history@[j]@),
            None => sp_first_idx(history@, message_id as int, 0) is None,
        },
{
    let mut idx: usize = 0;
    while idx < history.len() && history[idx].id != message_id
        invariant
            idx <= history@.len(),
            sp_first_idx(history@, message_id as int, 0) == sp_first_idx(
                history@,
                message_id as int,
                idx as int,
            ),
        decreases history@.len() - idx,
    {
        idx = idx + 1;
    }
    if idx == history.len() {
        return None;
    }
    let mut v: Vec<Message> = Vec::new();
    let mut j: usize = 0;
    while j < idx
        invariant
            j <= idx <= history@.len(),
            v@.len() == j,
            forall|k: int| 0 <= k < j ==> #[trigger] v@[k]@ == history@[k]@,
        decreases idx - j,
    {
        v.push(history[j].duplicate());
        j = j + 1;
    }
    Some(v)
}

} // verus!

//! Message kinds, messages, sessions and timestamps.

use vstd::prelude::*;

verus! {

/// The kind of a message in a session transcript.
#[derive(Clone, Copy, Debug, PartialEq, Eq, Structural, Hash)]
pub enum MessageType {
    System,
    User,
    Assistant,
    ToolCall,
    ToolResult,
}

/// A point in time: whole seconds since the Unix epoch and the nanoseconds
/// within that second (up to two seconds' worth during a leap second).
#[derive(Clone, Copy, Debug, PartialEq, Eq, Structural, Hash)]
pub struct Timestamp {
    pub secs: i64,
    pub nanos: u32,
}

/// Chronological order on timestamps: by seconds, then by nanoseconds.
pub open spec fn ts_le(a: Timestamp, b: Timestamp) -> bool {
    a.secs < b.secs || (a.secs == b.secs && a.nanos <= b.nanos)
}

impl Timestamp {
    /// The Unix epoch, 1970-01-01T00:00:00Z.
    pub fn epoch() -> (t: Timestamp)
        ensures
            t.secs == 0 && t.nanos == 0,
    {
        Timestamp { secs: 0, nanos: 0 }
    }

    /// `true` when `self` is not later than `other`.
    pub fn le(&self, other: &Timestamp) -> (r: bool)
        ensures
            r == ts_le(*self, *other),
    {
        self.secs < other.secs || (self.secs == other.secs && self.nanos <= other.nanos)
    }
}

/// One message of a session, as shown in the monitor and kept in the store.
#[derive(Clone, Debug)]
pub struct Message {
    pub id: Option<i64>,
    pub session_id: String,
    pub sequence_num: u64,
    pub message_type: MessageType,
    pub timestamp: Timestamp,
    pub content: String,
    pub tool_name: Option<String>,
    pub tool_use_id: Option<String>,
    pub anthropic_msg_id: Option<String>,
    pub request_id: Option<String>,
    pub input_tokens: Option<u32>,
    pub output_tokens: Option<u32>,
    pub tokens_estimated: bool,
    pub model: Option<String>,
}

/// The mathematical content of a message: its strings as character sequences.
pub struct MessageView {
    pub id: Option<i64>,
    pub session_id: Seq<char>,
    pub sequence_num: u64,
    pub message_type: MessageType,
    pub timestamp: Timestamp,
    pub content: Seq<char>,
    pub tool_name: Option<Seq<char>>,
    pub tool_use_id: Option<Seq<char>>,
    pub anthropic_msg_id: Option<Seq<char>>,
    pub request_id: Option<Seq<char>>,
    pub input_tokens: Option<u32>,
    pub output_tokens: Option<u32>,
    pub tokens_estimated: bool,
    pub model: Option<Seq<char>>,
}

impl View for Message {
    type V = MessageView;

    open spec fn view(&self) -> MessageView {
        MessageView {
            id: self.id,
            session_id: self.session_id@,
            sequence_num: self.sequence_num,
            message_type: self.message_type,
            timestamp: self.timestamp,
            content: self.content@,
            tool_name: self.tool_name.deep_view(),
            tool_use_id: self.tool_use_id.deep_view(),
            anthropic_msg_id: self.anthropic_msg_id.deep_view(),
            request_id: self.request_id.deep_view(),
            input_tokens: self.input_tokens,
            output_tokens: self.output_tokens,
            tokens_estimated: self.tokens_estimated,
            model: self.model.deep_view(),
        }
    }
}

impl crate::ordering::Timed for Message {
    /// Messages are ordered by when they were written.
    open spec fn spec_time(&self) -> Timestamp {
        self.timestamp
    }

    fn time(&self) -> (r: Timestamp) {
        self.timestamp
    }
}

/// The views of a sequence of messages.
pub open spec fn message_views(ms: Seq<Message>) -> Seq<MessageView> {
    ms.map_values(|m: Message| m@)
}

/// A copy of an optional string.
pub fn clone_opt(o: &Option<String>) -> (r: Option<String>)
    ensures
        r.deep_view() == o.deep_view(),
{
    match o {
        Some(s) => Some(s.clone()),
        None => None,
    }
}

/// The life-cycle state of a watched session.
#[derive(Clone, Copy, Debug, PartialEq, Eq, Structural)]
pub enum SessionStatus {
    Watching,
    Ended,
    Stale,
}

/// The mathematical content of a session.
pub struct SessionView {
    pub id: Seq<char>,
    pub project_name: Seq<char>,
    pub file_path: Seq<char>,
    pub first_seen_at: Timestamp,
    pub last_seen_at: Timestamp,
    pub status: SessionStatus,
    pub message_count: u64,
}

/// A session as recorded in the store.
#[derive(Clone, Debug)]
pub struct Session {
    pub id: String,
    pub project_name: String,
    pub file_path: String,
    pub first_seen_at: Timestamp,
    pub last_seen_at: Timestamp,
    pub status: SessionStatus,
    pub message_count: u64,
}

impl View for Session {
    type V = SessionView;

    open spec fn view(&self) -> SessionView {
        SessionView {
            id: self.id@,
            project_name: self.project_name@,
            file_path: self.file_path@,
            first_seen_at: self.first_seen_at,
            last_seen_at: self.last_seen_at,
            status: self.status,
            message_count: self.message_count,
        }
    }
}

} // verus!

//! How messages and sessions are written to, and read back from, the
//! database's text columns.

use vstd::prelude::*;
use crate::clock::{
    format_timestamp, in_four_digit_years, parse_datetime, spec_format_timestamp, spec_parse_datetime,
};
use crate::model::{clone_opt, Message, MessageType, MessageView, Session, SessionStatus, SessionView, Timestamp};
use crate::text::str_eq;

verus! {

/// The stored name of a message kind.
pub open spec fn spec_message_type_str(mt: MessageType) -> Seq<char> {
    match mt {
        MessageType::System => "system"@,
        MessageType::User => "user"@,
        MessageType::Assistant => "assistant"@,
        MessageType::ToolCall => "tool_call"@,
        MessageType::ToolResult => "tool_result"@,
    }
}

/// The message kind read back from its stored name; anything unknown reads
/// as a system message.
pub open spec fn spec_parse_message_type(s: Seq<char>) -> MessageType {
    if s == "user"@ {
        MessageType::User
    } else if s == "assistant"@ {
        MessageType::Assistant
    } else if s == "tool_call"@ {
        MessageType::ToolCall
    } else if s == "tool_result"@ {
        MessageType::ToolResult
    } else {
        MessageType::System
    }
}

/// The stored name of a session status.
pub open spec fn spec_session_status_str(s: SessionStatus) -> Seq<char> {
    match s {
        SessionStatus::Watching => "watching"@,
        SessionStatus::Ended => "ended"@,
        SessionStatus::Stale => "stale"@,
    }
}

/// The session status read back from its stored name; anything unknown reads
/// as stale.
pub open spec fn spec_parse_session_status(s: Seq<char>) -> SessionStatus {
    if s == "watching"@ {
        SessionStatus::Watching
    } else if s == "ended"@ {
        SessionStatus::Ended
    } else {
        SessionStatus::Stale
    }
}

/// A stored timestamp read back; one that cannot be read becomes the epoch.
pub open spec fn spec_parse_ts(s: Seq<char>) -> Timestamp {
    match spec_parse_datetime(s) {
        Some(t) => t,
        None => Timestamp { secs: 0, nanos: 0 },
    }
}

pub fn message_type_str(mt: &MessageType) -> (r: &'static str)
    ensures
        r@ == spec_message_type_str(*mt),
{
    proof {
        reveal_strlit("system");
        reveal_strlit("user");
        reveal_strlit("assistant");
        reveal_strlit("tool_call");
        reveal_strlit("tool_result");
    }
    match mt {
        MessageType::System => "system",
        MessageType::User => "user",
        MessageType::Assistant => "assistant",
        MessageType::ToolCall => "tool_call",
        MessageType::ToolResult => "tool_result",
    }
}

pub fn parse_message_type(s: &str) -> (r: MessageType)
    ensures
        r == spec_parse_message_type(s@),
{
    if str_eq(s, "user") {
        MessageType::User
    } else if str_eq(s, "assistant") {
        MessageType::Assistant
    } else if str_eq(s, "tool_call") {
        MessageType::ToolCall
    } else if str_eq(s, "tool_result") {
        MessageType::ToolResult
    } else {
        MessageType::System
    }
}

pub fn session_status_str(s: &SessionStatus) -> (r: &'static str)
    ensures
        r@ == spec_session_status_str(*s),
{
    proof {
        reveal_strlit("watching");
        reveal_strlit("ended");
        reveal_strlit("stale");
    }
    match s {
        SessionStatus::Watching => "watching",
        SessionStatus::Ended => "ended",
        SessionStatus::Stale => "stale",
    }
}

pub fn parse_session_status(s: &str) -> (r: SessionStatus)
    ensures
        r == spec_parse_session_status(s@),
{
    if str_eq(s, "watching") {
        SessionStatus::Watching
    } else if str_eq(s, "ended") {
        SessionStatus::Ended
    } else {
        SessionStatus::Stale
    }
}

/// Reads a stored RFC 3339 timestamp; the epoch stands for one that cannot
/// be read.
pub fn parse_ts(s: &str) -> (r: Timestamp)
    ensures
        r == spec_parse_ts(s@),
{
    match parse_datetime(s) {
        Some(t) => t,
        None => Timestamp::epoch(),
    }
}

/// Every message kind survives being stored and read back.
pub proof fn lemma_message_type_roundtrip(mt: MessageType)
    ensures
        spec_parse_message_type(spec_message_type_str(mt)) == mt,
{
    reveal_strlit("system");
    reveal_strlit("user");
    reveal_strlit("assistant");
    reveal_strlit("tool_call");
    reveal_strlit("tool_result");
    assert("system"@.len() == 6 && "user"@.len() == 4 && "assistant"@.len() == 9
        && "tool_call"@.len() == 9 && "tool_result"@.len() == 11);
    assert("assistant"@[0] != "user"@[0]);
    assert("tool_call"@ != "user"@ && "tool_call"@[0] != "assistant"@[0]);

}

/// Every session status survives being stored and read back.
pub proof fn lemma_session_status_roundtrip(s: SessionStatus)
    ensures
        spec_parse_session_status(spec_session_status_str(s)) == s,
{
    reveal_strlit("watching");
    reveal_strlit("ended");
    reveal_strlit("stale");
    assert("ended"@.len() == 5 && "watching"@.len() == 8);
    assert("stale"@[0] != "watching"@[0] && "stale"@[0] != "ended"@[0]);
}

/// The columns of a row of the `messages` table.
pub struct MessageRow {
    pub id: i64,
    pub session_id: String,
    pub sequence_num: i64,
    pub message_type: String,
    pub timestamp: String,
    pub content: String,
    pub tool_name: Option<String>,
    pub tool_use_id: Option<String>,
    pub anthropic_msg_id: Option<String>,
    pub request_id: Option<String>,
    pub input_tokens: Option<i64>,
    pub output_tokens: Option<i64>,
    pub model: Option<String>,
}

/// A stored token count narrowed to 32 bits (the low 32 bits are kept).
pub open spec fn stored_tokens(v: Option<i64>) -> Option<u32> {
    match v {
        Some(x) => Some(x as u32),
        None => None,
    }
}

/// The message that a `messages` row holds.
pub open spec fn spec_message_from_row(row: MessageRow) -> MessageView {
    MessageView {
        id: Some(row.id),
        session_id: row.session_id@,
        sequence_num: row.sequence_num as u64,
        message_type: spec_parse_message_type(row.message_type@),
        timestamp: spec_parse_ts(row.timestamp@),
        content: row.content@,
        tool_name: row.tool_name.deep_view(),
        tool_use_id: row.tool_use_id.deep_view(),
        anthropic_msg_id: row.anthropic_msg_id.deep_view(),
        request_id: row.request_id.deep_view(),
        input_tokens: stored_tokens(row.input_tokens),
        output_tokens: stored_tokens(row.output_tokens),
        tokens_estimated: false,
        model: row.model.deep_view(),
    }
}

fn narrow_tokens(v: Option<i64>) -> (r: Option<u32>)
    ensures
        r == stored_tokens(v),
{
    match v {
        Some(x) => Some(x as u32),
        None => None,
    }
}

/// Builds the message that a `messages` row holds.
pub fn message_from_row(row: MessageRow) -> (r: Message)
    ensures
        r@ == spec_message_from_row(row),
{
    let message_type = parse_message_type(row.message_type.as_str());
    let timestamp = parse_ts(row.timestamp.as_str());
    Message {
        id: Some(row.id),
        session_id: row.session_id,
        sequence_num: row.sequence_num as u64,
        message_type,
        timestamp,
        content: row.content,
        tool_name: row.tool_name,
        tool_use_id: row.tool_use_id,
        anthropic_msg_id: row.anthropic_msg_id,
        request_id: row.request_id,
        input_tokens: narrow_tokens(row.input_tokens),
        output_tokens: narrow_tokens(row.output_tokens),
        tokens_estimated: false,
        model: row.model,
    }
}

/// A token count as stored.
pub open spec fn tokens_column(v: Option<u32>) -> Option<i64> {
    match v {
        Some(x) => Some(x as i64),
        None => None,
    }
}

/// `row` is the row that stores the message `m` under the row id `id`, with
/// its time written as `timestamp`.
pub open spec fn is_message_row(row: MessageRow, m: MessageView, id: i64, timestamp: Seq<char>) -> bool {
    &&& row.id == id
    &&& row.session_id@ == m.session_id
    &&& row.sequence_num == m.sequence_num as i64
    &&& row.message_type@ == spec_message_type_str(m.message_type)
    &&& row.timestamp@ == timestamp
    &&& row.content@ == m.content
    &&& row.tool_name.deep_view() == m.tool_name
    &&& row.tool_use_id.deep_view() == m.tool_use_id
    &&& row.anthropic_msg_id.deep_view() == m.anthropic_msg_id
    &&& row.request_id.deep_view() == m.request_id
    &&& row.input_tokens == tokens_column(m.input_tokens)
    &&& row.output_tokens == tokens_column(m.output_tokens)
    &&& row.model.deep_view() == m.model
}

fn widen_tokens(v: Option<u32>) -> (r: Option<i64>)
    ensures
        r == tokens_column(v),
{
    match v {
        Some(x) => Some(x as i64),
        None => None,
    }
}

/// The row that stores a message under the row id `id`; `None` when its
/// time cannot be written.
pub fn message_row(m: &Message, id: i64) -> (r: Option<MessageRow>)
    ensures
        (match spec_format_timestamp(m.timestamp) {
            Some(ts) => (r matches Some(row) && is_message_row(row, m@, id, ts)),
            None => (r is None),
        }),
        (r matches Some(row) ==> (in_four_digit_years(m.timestamp) ==> spec_message_from_row(row) == (
        MessageView { id: Some(id), tokens_estimated: false, ..m@ }))),
{
    let timestamp = match format_timestamp(m.timestamp) {
        Some(t) => t,
        None => return None,
    };
    let ghost text = timestamp@;
    let row = MessageRow {
        id,
        session_id: m.session_id.clone(),
        sequence_num: m.sequence_num as i64,
        message_type: message_type_str(&m.message_type).to_owned(),
        timestamp,
        content: m.content.clone(),
        tool_name: clone_opt(&m.tool_name),
        tool_use_id: clone_opt(&m.tool_use_id),
        anthropic_msg_id: clone_opt(&m.anthropic_msg_id),
        request_id: clone_opt(&m.request_id),
        input_tokens: widen_tokens(m.input_tokens),
        output_tokens: widen_tokens(m.output_tokens),
        model: clone_opt(&m.model),
    };
    proof {
        if in_four_digit_years(m.timestamp) {
            lemma_message_row_roundtrip(row, m@, id, text);
        }
    }
    Some(row)
}

/// A message written to a row reads back as itself, under the row's id and
/// without the estimate mark, when its written time reads back as the same
/// time.
pub proof fn lemma_message_row_roundtrip(row: MessageRow, m: MessageView, id: i64, timestamp: Seq<char>)
    requires
        is_message_row(row, m, id, timestamp),
        spec_parse_ts(timestamp) == m.timestamp,
    ensures
        spec_message_from_row(row) == (MessageView { id: Some(id), tokens_estimated: false, ..m }),
{
    lemma_message_type_roundtrip(m.message_type);
    let n = m.sequence_num;
    assert((n as i64) as u64 == n) by (bit_vector);
}

/// The columns of a session row, with the number of its messages.
pub struct SessionRow {
    pub id: String,
    pub project_name: String,
    pub file_path: String,
    pub first_seen_at: String,
    pub last_seen_at: String,
    pub status: String,
    pub message_count: i64,
}

/// The session that a session row holds.
pub open spec fn spec_session_from_row(row: SessionRow) -> SessionView {
    SessionView {
        id: row.id@,
        project_name: row.project_name@,
        file_path: row.file_path@,
        first_seen_at: spec_parse_ts(row.first_seen_at@),
        last_seen_at: spec_parse_ts(row.last_seen_at@),
        status: spec_parse_session_status(row.status@),
        message_count: row.message_count as u64,
    }
}

/// Builds the session that a session row holds.
pub fn session_from_row(row: SessionRow) -> (r: Session)
    ensures
        r@ == spec_session_from_row(row),
{
    let first_seen_at = parse_ts(row.first_seen_at.as_str());
    let last_seen_at = parse_ts(row.last_seen_at.as_str());
    let status = parse_session_status(row.status.as_str());
    Session {
        id: row.id,
        project_name: row.project_name,
        file_path: row.file_path,
        first_seen_at,
        last_seen_at,
        status,
        message_count: row.message_count as u64,
    }
}

/// `row` is the row that stores the session `s`, with its times written as
/// `first_seen_at` and `last_seen_at`.
pub open spec fn is_session_row(row: SessionRow, s: SessionView, first_seen_at: Seq<char>, last_seen_at: Seq<char>) -> bool {
    &&& row.id@ == s.id
    &&& row.project_name@ == s.project_name
    &&& row.file_path@ == s.file_path
    &&& row.first_seen_at@ == first_seen_at
    &&& row.last_seen_at@ == last_seen_at
    &&& row.status@ == spec_session_status_str(s.status)
    &&& row.message_count == s.message_count as i64
}

/// The row that stores a session; `None` when one of its times cannot be
/// written.
pub fn session_row(s: &Session) -> (r: Option<SessionRow>)
    ensures
        (match (spec_format_timestamp(s.first_seen_at), spec_format_timestamp(s.last_seen_at)) {
            (Some(f), Some(l)) => (r matches Some(row) && is_session_row(row, s@, f, l)),
            _ => (r is None),
        }),
        (r matches Some(row) ==> (in_four_digit_years(s.first_seen_at) && in_four_digit_years(
            s.last_seen_at,
        ) ==> spec_session_from_row(row) == s@)),
{
    let first_seen_at = match format_timestamp(s.first_seen_at) {
        Some(t) => t,
        None => return None,
    };
    let last_seen_at = match format_timestamp(s.last_seen_at) {
        Some(t) => t,
        None => return None,
    };
    let ghost first_text = first_seen_at@;
    let ghost last_text = last_seen_at@;
    let row = SessionRow {
        id: s.id.clone(),
        project_name: s.project_name.clone(),
        file_path: s.file_path.clone(),
        first_seen_at,
        last_seen_at,
        status: session_status_str(&s.status).to_owned(),
        message_count: s.message_count as i64,
    };
    proof {
        if in_four_digit_years(s.first_seen_at) && in_four_digit_years(s.last_seen_at) {
            lemma_session_row_roundtrip(row, s@, first_text, last_text);
        }
    }
    Some(row)
}

/// A session written to a row reads back as itself when its written times
/// read back as the same times.
pub proof fn lemma_session_row_roundtrip(row: SessionRow, s: SessionView, first_seen_at: Seq<char>, last_seen_at: Seq<char>)
    requires
        is_session_row(row, s, first_seen_at, last_seen_at),
        spec_parse_ts(first_seen_at) == s.first_seen_at,
        spec_parse_ts(last_seen_at) == s.last_seen_at,
    ensures
        spec_session_from_row(row) == s,
{
    lemma_session_status_roundtrip(s.status);
    let n = s.message_count;
    assert((n as i64) as u64 == n) by (bit_vector);
}

/// Whether looking a message up in the store can find it: a message with
/// neither a model message id nor a request id is never a duplicate.
pub fn duplicate_check_needed(anthropic_msg_id: &Option<&str>, request_id: &Option<&str>) -> (r:
    bool)
    ensures
        r == (anthropic_msg_id is Some || request_id is Some),
{
    anthropic_msg_id.is_some() || request_id.is_some()
}

/// A session being watched and whether its transcript file still exists.
pub struct WatchedFile {
    pub id: String,
    pub file_exists: bool,
}

/// The ids of the watched sessions whose transcript file is gone, in order.
pub open spec fn spec_missing_ids(files: Seq<WatchedFile>) -> Seq<Seq<char>>
    decreases files.len(),
{
    if files.len() == 0 {
        Seq::empty()
    } else if files.last().file_exists {
        spec_missing_ids(files.drop_last())
    } else {
        spec_missing_ids(files.drop_last()).push(files.last().id@)
    }
}

/// The sessions to mark stale: those whose transcript file is gone.
pub fn missing_sessions(files: Vec<WatchedFile>) -> (r: Vec<String>)
    ensures
        r@.map_values(|s: String| s@) == spec_missing_ids(files@),
{
    let mut out: Vec<String> = Vec::new();
    let mut i: usize = 0;
    assert(files@.take(0) =~= Seq::<WatchedFile>::empty());
    while i < files.len()
        invariant
            i <= files@.len(),
            out@.map_values(|s: String| s@) == spec_missing_ids(files@.take(i as int)),
        decreases files@.len() - i,
    {
        assert(files@.take(i as int + 1).drop_last() =~= files@.take(i as int));
        if !files[i].file_exists {
            out.push(files[i].id.clone());
        }
        assert(out@.map_values(|s: String| s@) =~= spec_missing_ids(files@.take(i as int + 1)));
        i = i + 1;
    }
    assert(files@.take(files@.len() as int) =~= files@);
    out
}

} // verus!

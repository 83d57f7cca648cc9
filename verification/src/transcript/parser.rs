//! Turning one line of a session transcript (JSON Lines) into messages.
//!
//! The line is read into a `JsonlEntry` first; the fields that hold free-form
//! JSON (a tool's input and a tool result's content) are kept as JSON values.

use vstd::prelude::*;
use crate::clock::{now, parse_datetime, spec_parse_datetime};
use crate::json::{spec_pretty_json, JsonValue};
use crate::model::{clone_opt, message_views, Message, MessageType, MessageView, Timestamp};
use crate::text::{contains_str, is_blank, str_contains, str_eq, str_is_blank};

verus! {

/// Token usage reported for a model reply.
pub struct Usage {
    pub input_tokens: u64,
    pub output_tokens: u64,
}

/// One block of a message's content.
pub struct ContentBlock {
    /// The block's `type`: `text`, `tool_use`, `tool_result` or another kind.
    pub block_type: String,
    pub text: Option<String>,
    pub id: Option<String>,
    pub name: Option<String>,
    /// A tool call's input.
    pub input: Option<JsonValue>,
    pub tool_use_id: Option<String>,
    /// A tool result's content.
    pub content: Option<JsonValue>,
}

/// A message's content: plain text or a list of blocks.
pub enum MessageContent {
    Text(String),
    Blocks(Vec<ContentBlock>),
}

/// The `message` object of a transcript line.
pub struct JsonlMessage {
    pub id: Option<String>,
    pub role: Option<String>,
    pub content: Option<MessageContent>,
    pub model: Option<String>,
    pub usage: Option<Usage>,
}

/// One line of a transcript.
pub struct JsonlEntry {
    pub timestamp: Option<String>,
    pub message: Option<JsonlMessage>,
    pub request_id: Option<String>,
}

/// A token count narrowed to 32 bits, saturating at `u32::MAX`.
pub open spec fn sat_u32(x: u64) -> u32 {
    if x > u32::MAX {
        u32::MAX
    } else {
        x as u32
    }
}

/// The kind of a text message from its author's role.
pub open spec fn role_type(role: Seq<char>) -> MessageType {
    if role == "assistant"@ {
        MessageType::Assistant
    } else if role == "user"@ {
        MessageType::User
    } else {
        MessageType::System
    }
}

/// The pretty-printed form of a JSON text, or the empty string.
pub open spec fn pretty_or_empty(v: Option<JsonValue>) -> Seq<char> {
    match v {
        Some(x) => match spec_pretty_json(x) {
            Some(s) => s,
            None => Seq::empty(),
        },
        None => Seq::empty(),
    }
}

/// The shown content of a tool result: a JSON string as it is, any other
/// JSON value pretty-printed.
pub open spec fn result_text(v: Option<JsonValue>) -> Seq<char> {
    match v {
        Some(JsonValue::Str(s)) => s@,
        _ => pretty_or_empty(v),
    }
}

/// What every message of one transcript line shares.
pub struct LineContext {
    pub session_id: Seq<char>,
    pub sequence_num: int,
    pub role: Seq<char>,
    pub timestamp: Timestamp,
    pub anthropic_msg_id: Option<Seq<char>>,
    pub request_id: Option<Seq<char>>,
    pub input_tokens: Option<u32>,
    pub output_tokens: Option<u32>,
    pub model: Option<Seq<char>>,
}

/// A message of the given line with the given particulars.
pub open spec fn line_message(
    ctx: LineContext,
    seq: int,
    message_type: MessageType,
    content: Seq<char>,
    tool_name: Option<Seq<char>>,
    tool_use_id: Option<Seq<char>>,
) -> MessageView {
    MessageView {
        id: None,
        session_id: ctx.session_id,
        sequence_num: seq as u64,
        message_type,
        timestamp: ctx.timestamp,
        content,
        tool_name,
        tool_use_id,
        anthropic_msg_id: ctx.anthropic_msg_id,
        request_id: ctx.request_id,
        input_tokens: ctx.input_tokens,
        output_tokens: ctx.output_tokens,
        tokens_estimated: false,
        model: ctx.model,
    }
}

/// Whether a block becomes a message: text, tool calls and tool results do.
pub open spec fn is_known_block(b: ContentBlock) -> bool {
    b.block_type@ == "text"@ || b.block_type@ == "tool_use"@ || b.block_type@ == "tool_result"@
}

/// The message that a known block becomes, numbered `seq`.
pub open spec fn block_message(ctx: LineContext, b: ContentBlock, seq: int) -> MessageView {
    if b.block_type@ == "text"@ {
        line_message(
            ctx,
            seq,
            role_type(ctx.role),
            match b.text {
                Some(t) => t@,
                None => Seq::empty(),
            },
            None,
            None,
        )
    } else if b.block_type@ == "tool_use"@ {
        line_message(
            ctx,
            seq,
            MessageType::ToolCall,
            match b.input {
                Some(v) => pretty_or_empty(Some(v)),
                None => Seq::empty(),
            },
            b.name.deep_view(),
            b.id.deep_view(),
        )
    } else {
        line_message(
            ctx,
            seq,
            MessageType::ToolResult,
            match b.content {
                Some(v) => result_text(Some(v)),
                None => Seq::empty(),
            },
            None,
            b.tool_use_id.deep_view(),
        )
    }
}

/// Whether a message is worth showing: it has visible content, or it is a
/// call of a named tool.
pub open spec fn is_shown(m: MessageView) -> bool {
    !is_blank(m.content) || m.tool_name is Some
}

/// The number of known blocks in `bs`.
pub open spec fn known_count(bs: Seq<ContentBlock>) -> nat
    decreases bs.len(),
{
    if bs.len() == 0 {
        0
    } else {
        known_count(bs.drop_last()) + if is_known_block(bs.last()) {
            1nat
        } else {
            0nat
        }
    }
}

/// The messages of the blocks `bs`: each known block is numbered in turn
/// from the line's sequence number, and the ones not worth showing are
/// dropped afterwards.
pub open spec fn block_messages(ctx: LineContext, bs: Seq<ContentBlock>) -> Seq<MessageView>
    decreases bs.len(),
{
    if bs.len() == 0 {
        Seq::empty()
    } else {
        let prev = block_messages(ctx, bs.drop_last());
        let b = bs.last();
        if is_known_block(b) {
            let m = block_message(ctx, b, ctx.sequence_num + known_count(bs.drop_last()));
            if is_shown(m) {
                prev.push(m)
            } else {
                prev
            }
        } else {
            prev
        }
    }
}

/// The number of blocks of a line that are numbered.
pub open spec fn entry_known_count(entry: JsonlEntry) -> nat {
    match entry.message {
        Some(msg) => match msg.content {
            Some(MessageContent::Blocks(bs)) => known_count(bs@),
            _ => 0,
        },
        None => 0,
    }
}

/// The context that a line's `message` gives its messages.
pub open spec fn line_context(
    entry: JsonlEntry,
    msg: JsonlMessage,
    session_id: Seq<char>,
    sequence_num: int,
    timestamp: Timestamp,
) -> LineContext {
    LineContext {
        session_id,
        sequence_num,
        role: match msg.role {
            Some(r) => r@,
            None => Seq::empty(),
        },
        timestamp,
        anthropic_msg_id: msg.id.deep_view(),
        request_id: entry.request_id.deep_view(),
        input_tokens: match msg.usage {
            Some(u) => Some(sat_u32(u.input_tokens)),
            None => None,
        },
        output_tokens: match msg.usage {
            Some(u) => Some(sat_u32(u.output_tokens)),
            None => None,
        },
        model: msg.model.deep_view(),
    }
}

/// The messages of one transcript line, all stamped with `timestamp`.
/// A line without a `message` gives none; plain-text content gives one
/// message unless it is blank; block content gives one message per block
/// worth showing.
pub open spec fn entry_messages(
    entry: JsonlEntry,
    session_id: Seq<char>,
    sequence_num: int,
    timestamp: Timestamp,
) -> Seq<MessageView> {
    match entry.message {
        None => Seq::empty(),
        Some(msg) => {
            let ctx = line_context(entry, msg, session_id, sequence_num, timestamp);
            match msg.content {
                Some(MessageContent::Text(t)) => if is_blank(t@) {
                    Seq::empty()
                } else {
                    seq![line_message(ctx, sequence_num, role_type(ctx.role), t@, None, None)]
                },
                Some(MessageContent::Blocks(bs)) => block_messages(ctx, bs@),
                None => Seq::empty(),
            }
        },
    }
}

fn saturate_u32(x: u64) -> (r: u32)
    ensures
        r == sat_u32(x),
{
    if x > 0xffff_ffffu64 {
        u32::MAX
    } else {
        x as u32
    }
}

fn role_message_type(role: &str) -> (r: MessageType)
    ensures
        r == role_type(role@),
{
    if str_eq(role, "assistant") {
        MessageType::Assistant
    } else if str_eq(role, "user") {
        MessageType::User
    } else {
        MessageType::System
    }
}

fn pretty_value(v: &JsonValue) -> (r: String)
    ensures
        r@ == pretty_or_empty(Some(*v)),
{
    match v.to_pretty() {
        Some(s) => s,
        None => String::new(),
    }
}

fn result_value(v: &JsonValue) -> (r: String)
    ensures
        r@ == result_text(Some(*v)),
{
    match v {
        JsonValue::Str(s) => s.clone(),
        _ => pretty_value(v),
    }
}

/// The message for the known block `b`, or `None` for any other block.
fn known_block_message(
    b: &ContentBlock,
    seq: u64,
    session_id: &str,
    role: &str,
    timestamp: Timestamp,
    anthropic_msg_id: &Option<String>,
    request_id: &Option<String>,
    input_tokens: Option<u32>,
    output_tokens: Option<u32>,
    model: &Option<String>,
) -> (r: Option<Message>)
    ensures
        is_known_block(*b) <==> r is Some,
        r matches Some(m) ==> m@ == block_message(
            LineContext {
                session_id: session_id@,
                sequence_num: 0,
                role: role@,
                timestamp,
                anthropic_msg_id: anthropic_msg_id.deep_view(),
                request_id: request_id.deep_view(),
                input_tokens,
                output_tokens,
                model: model.deep_view(),
            },
            *b,
            seq as int,
        ),
{
    let kind = b.block_type.as_str();
    if str_eq(kind, "text") {
        let content = match &b.text {
            Some(t) => t.clone(),
            None => String::new(),
        };
        Some(
            Message {
                id: None,
                session_id: session_id.to_owned(),
                sequence_num: seq,
                message_type: role_message_type(role),
                timestamp,
                content,
                tool_name: None,
                tool_use_id: None,
                anthropic_msg_id: clone_opt(anthropic_msg_id),
                request_id: clone_opt(request_id),
                input_tokens,
                output_tokens,
                tokens_estimated: false,
                model: clone_opt(model),
            },
        )
    } else if str_eq(kind, "tool_use") {
        let content = match &b.input {
            Some(v) => pretty_value(v),
            None => String::new(),
        };
        Some(
            Message {
                id: None,
                session_id: session_id.to_owned(),
                sequence_num: seq,
                message_type: MessageType::ToolCall,
                timestamp,
                content,
                tool_name: clone_opt(&b.name),
                tool_use_id: clone_opt(&b.id),
                anthropic_msg_id: clone_opt(anthropic_msg_id),
                request_id: clone_opt(request_id),
                input_tokens,
                output_tokens,
                tokens_estimated: false,
                model: clone_opt(model),
            },
        )
    } else if str_eq(kind, "tool_result") {
        let content = match &b.content {
            Some(v) => result_value(v),
            None => String::new(),
        };
        Some(
            Message {
                id: None,
                session_id: session_id.to_owned(),
                sequence_num: seq,
                message_type: MessageType::ToolResult,
                timestamp,
                content,
                tool_name: None,
                tool_use_id: clone_opt(&b.tool_use_id),
                anthropic_msg_id: clone_opt(anthropic_msg_id),
                request_id: clone_opt(request_id),
                input_tokens,
                output_tokens,
                tokens_estimated: false,
                model: clone_opt(model),
            },
        )
    } else {
        None
    }
}

/// The messages of one transcript line, stamped with `timestamp` and
/// numbered from `sequence_num`.
pub fn messages_from_entry(
    entry: JsonlEntry,
    session_id: &str,
    sequence_num: u64,
    timestamp: Timestamp,
) -> (r: Vec<Message>)
    requires
        sequence_num + entry_known_count(entry) <= u64::MAX,
    ensures
        message_views(r@) == entry_messages(entry, session_id@, sequence_num as int, timestamp),
{
    let ghost g_entry = entry;
    let request_id = entry.request_id;
    let msg = match entry.message {
        Some(m) => m,
        None => {
            let out: Vec<Message> = Vec::new();
            assert(message_views(out@) =~= Seq::<MessageView>::empty());
            return out;
        },
    };
    let ghost ctx = line_context(g_entry, msg, session_id@, sequence_num as int, timestamp);
    let role = match &msg.role {
        Some(r) => r.clone(),
        None => String::new(),
    };
    let input_tokens = match &msg.usage {
        Some(u) => Some(saturate_u32(u.input_tokens)),
        None => None,
    };
    let output_tokens = match &msg.usage {
        Some(u) => Some(saturate_u32(u.output_tokens)),
        None => None,
    };
    let anthropic_msg_id = msg.id;
    let model = msg.model;
    assert(ctx.role == role@);
    match msg.content {
        Some(MessageContent::Text(text)) => {
            let mut out: Vec<Message> = Vec::new();
            if !str_is_blank(text.as_str()) {
                out.push(
                    Message {
                        id: None,
                        session_id: session_id.to_owned(),
                        sequence_num,
                        message_type: role_message_type(role.as_str()),
                        timestamp,
                        content: text,
                        tool_name: None,
                        tool_use_id: None,
                        anthropic_msg_id,
                        request_id,
                        input_tokens,
                        output_tokens,
                        tokens_estimated: false,
                        model,
                    },
                );
            }
            assert(message_views(out@) =~= entry_messages(
                g_entry,
                session_id@,
                sequence_num as int,
                timestamp,
            ));
            out
        },
        Some(MessageContent::Blocks(blocks)) => {
            let mut out: Vec<Message> = Vec::new();
            let mut local_seq: u64 = sequence_num;
            let mut i: usize = 0;
            assert(blocks@.take(0) =~= Seq::<ContentBlock>::empty());
            assert(message_views(out@) =~= Seq::<MessageView>::empty());
            while i < blocks.len()
                invariant
                    i <= blocks@.len(),
                    sequence_num + known_count(blocks@) <= u64::MAX,
                    local_seq == sequence_num + known_count(blocks@.take(i as int)),
                    message_views(out@) == block_messages(ctx, blocks@.take(i as int)),
                    ctx.session_id == session_id@,
                    ctx.sequence_num == sequence_num as int,
                    ctx.role == role@,
                    ctx.timestamp == timestamp,
                    ctx.anthropic_msg_id == anthropic_msg_id.deep_view(),
                    ctx.request_id == request_id.deep_view(),
                    ctx.input_tokens == input_tokens,
                    ctx.output_tokens == output_tokens,
                    ctx.model == model.deep_view(),
                decreases blocks@.len() - i,
            {
                let ghost prefix = blocks@.take(i as int);
                let ghost next = blocks@.take(i as int + 1);
                assert(next.drop_last() =~= prefix);
                assert(next.last() == blocks@[i as int]);
                proof {
                    lemma_known_count_prefix(blocks@, i as int + 1);
                }
                let made = known_block_message(
                    &blocks[i],
                    local_seq,
                    session_id,
                    role.as_str(),
                    timestamp,
                    &anthropic_msg_id,
                    &request_id,
                    input_tokens,
                    output_tokens,
                    &model,
                );
                match made {
                    Some(m) => {
                        let shown = !str_is_blank(m.content.as_str()) || m.tool_name.is_some();
                        if shown {
                            out.push(m);
                        }
                        assert(message_views(out@) =~= block_messages(ctx, next));
                        local_seq = local_seq + 1;
                    },
                    None => {
                        assert(message_views(out@) =~= block_messages(ctx, next));
                    },
                }
                i = i + 1;
            }
            assert(blocks@.take(blocks@.len() as int) =~= blocks@);
            out
        },
        None => {
            let out: Vec<Message> = Vec::new();
            assert(message_views(out@) =~= Seq::<MessageView>::empty());
            out
        },
    }
}

/// The known blocks of a prefix are no more than those of the whole.
proof fn lemma_known_count_prefix(bs: Seq<ContentBlock>, n: int)
    requires
        0 <= n <= bs.len(),
    ensures
        known_count(bs.take(n)) <= known_count(bs),
    decreases bs.len() - n,
{
    if n < bs.len() {
        lemma_known_count_prefix(bs, n + 1);
        assert(bs.take(n + 1).drop_last() =~= bs.take(n));
    } else {
        assert(bs.take(n) =~= bs);
    }
}

/// The time that a line's `timestamp` field states, when `chrono` reads it.
pub open spec fn stated_time(timestamp: Option<String>) -> Option<Timestamp> {
    match timestamp {
        Some(t) => spec_parse_datetime(t@),
        None => None,
    }
}

/// The time a line was written: its own `timestamp` when `chrono` reads it,
/// the current time otherwise.
fn line_timestamp(timestamp: &Option<String>) -> (r: Timestamp)
    ensures
        stated_time(*timestamp) matches Some(x) ==> r == x,
{
    match timestamp {
        Some(t) => match parse_datetime(t.as_str()) {
            Some(ts) => ts,
            None => now(),
        },
        None => now(),
    }
}

/// Turns one transcript line into the messages it holds, numbered from
/// `sequence_num`. Every message carries the line's timestamp, or the current
/// time when the line has none that can be read.
pub fn parse_line(entry: JsonlEntry, session_id: &str, sequence_num: u64) -> (r: Vec<Message>)
    requires
        sequence_num + entry_known_count(entry) <= u64::MAX,
    ensures
        exists|ts: Timestamp|
            {
                &&& message_views(r@) == entry_messages(entry, session_id@, sequence_num as int, ts)
                &&& (stated_time(entry.timestamp) matches Some(x) ==> ts == x)
            },
{
    let timestamp = line_timestamp(&entry.timestamp);
    let ghost g_entry = entry;
    let r = messages_from_entry(entry, session_id, sequence_num, timestamp);
    assert(message_views(r@) == entry_messages(g_entry, session_id@, sequence_num as int, timestamp));
    r
}

/// The messages of a run of blocks all belong to the line, are worth
/// showing, and are numbered upwards within the line's range.
proof fn lemma_block_messages(ctx: LineContext, bs: Seq<ContentBlock>)
    requires
        0 <= ctx.sequence_num,
        ctx.sequence_num + known_count(bs) <= u64::MAX,
    ensures
        ({
            let ms = block_messages(ctx, bs);
            &&& forall|i: int|
                0 <= i < ms.len() ==> (#[trigger] ms[i]).session_id == ctx.session_id
                    && ms[i].timestamp == ctx.timestamp && is_shown(ms[i]) && ctx.sequence_num
                    <= ms[i].sequence_num < ctx.sequence_num + known_count(bs)
            &&& forall|i: int, j: int|
                0 <= i < j < ms.len() ==> (#[trigger] ms[i]).sequence_num < (
                #[trigger] ms[j]).sequence_num
        }),
    decreases bs.len(),
{
    if bs.len() > 0 {
        lemma_block_messages(ctx, bs.drop_last());
    }
}

/// A line whose content is plain, non-blank text gives exactly one message:
/// that text, numbered with the line's number, of the kind its author's
/// role names — a user message for role `user`, an assistant message for
/// role `assistant`, a system message for any other role or none — whatever
/// the text says.
pub proof fn lemma_plain_text_message(
    entry: JsonlEntry,
    session_id: Seq<char>,
    sequence_num: int,
    timestamp: Timestamp,
)
    requires
        entry.message matches Some(msg) && msg.content matches Some(MessageContent::Text(t)) && !is_blank(t@),
    ensures
        ({
            let msg = entry.message->0;
            let t = msg.content->0->Text_0;
            let ms = entry_messages(entry, session_id, sequence_num, timestamp);
            &&& ms.len() == 1
            &&& ms[0].content == t@
            &&& ms[0].sequence_num == sequence_num as u64
            &&& ms[0].session_id == session_id
            &&& ms[0].timestamp == timestamp
            &&& ms[0].tool_name is None
            &&& ms[0].tool_use_id is None
            &&& (msg.role.deep_view() == Some("user"@) ==> ms[0].message_type == MessageType::User)
            &&& (msg.role.deep_view() == Some("assistant"@) ==> ms[0].message_type == MessageType::Assistant)
            &&& (msg.role.deep_view() != Some("user"@) && msg.role.deep_view() != Some("assistant"@)
                ==> ms[0].message_type == MessageType::System)
        }),
{
    reveal_strlit("user");
    reveal_strlit("assistant");
    assert("user"@.len() != "assistant"@.len());
}

/// The sequence numbers a line uses up: one per block that becomes a
/// message, and at least one.
pub open spec fn spec_line_span(entry: JsonlEntry) -> nat {
    if entry_known_count(entry) == 0 {
        1
    } else {
        entry_known_count(entry)
    }
}

/// Every message of a line carries the line's session and timestamp, has
/// visible content or names a tool, and the messages are numbered upwards
/// from the line's sequence number, within the numbers the line uses up.
pub proof fn lemma_line_messages(
    entry: JsonlEntry,
    session_id: Seq<char>,
    sequence_num: int,
    timestamp: Timestamp,
)
    requires
        0 <= sequence_num,
        sequence_num + entry_known_count(entry) <= u64::MAX,
    ensures
        ({
            let ms = entry_messages(entry, session_id, sequence_num, timestamp);
            &&& forall|i: int|
                0 <= i < ms.len() ==> (#[trigger] ms[i]).session_id == session_id
                    && ms[i].timestamp == timestamp && is_shown(ms[i]) && sequence_num
                    <= ms[i].sequence_num < sequence_num + spec_line_span(entry)
            &&& forall|i: int, j: int|
                0 <= i < j < ms.len() ==> (#[trigger] ms[i]).sequence_num < (
                #[trigger] ms[j]).sequence_num
        }),
{
    match entry.message {
        Some(msg) => {
            let ctx = line_context(entry, msg, session_id, sequence_num, timestamp);
            match msg.content {
                Some(MessageContent::Blocks(bs)) => {
                    lemma_block_messages(ctx, bs@);
                },
                _ => {},
            }
        },
        None => {},
    }
}

/// Numbering each line from where the numbers of the line before it end
/// keeps their messages apart: every message of the earlier line comes
/// before every message of the later one.
pub proof fn lemma_successive_lines(
    first: JsonlEntry,
    second: JsonlEntry,
    session_id: Seq<char>,
    first_num: int,
    second_num: int,
    first_time: Timestamp,
    second_time: Timestamp,
)
    requires
        0 <= first_num,
        first_num + spec_line_span(first) <= second_num,
        second_num + entry_known_count(second) <= u64::MAX,
    ensures
        ({
            let a = entry_messages(first, session_id, first_num, first_time);
            let b = entry_messages(second, session_id, second_num, second_time);
            forall|i: int, j: int|
                0 <= i < a.len() && 0 <= j < b.len() ==> (#[trigger] a[i]).sequence_num < (
                #[trigger] b[j]).sequence_num
        }),
{
    lemma_line_messages(first, session_id, first_num, first_time);
    lemma_line_messages(second, session_id, second_num, second_time);
}

/// How far the sequence number moves on past a line, so that the messages of
/// different lines never share a number.
pub fn line_span(entry: &JsonlEntry) -> (r: u64)
    requires
        spec_line_span(*entry) <= u64::MAX,
    ensures
        r == spec_line_span(*entry),
{
    let mut n: u64 = 0;
    match &entry.message {
        Some(msg) => match &msg.content {
            Some(MessageContent::Blocks(bs)) => {
                let mut i: usize = 0;
                assert(bs@.take(0) =~= Seq::<ContentBlock>::empty());
                while i < bs.len()
                    invariant
                        i <= bs@.len(),
                        n == known_count(bs@.take(i as int)),
                        known_count(bs@) <= u64::MAX,
                    decreases bs@.len() - i,
                {
                    assert(bs@.take(i as int + 1).drop_last() =~= bs@.take(i as int));
                    proof {
                        lemma_known_count_prefix(bs@, i as int + 1);
                    }
                    let kind = bs[i].block_type.as_str();
                    if str_eq(kind, "text") || str_eq(kind, "tool_use") || str_eq(kind, "tool_result") {
                        n = n + 1;
                    }
                    i = i + 1;
                }
                assert(bs@.take(bs@.len() as int) =~= bs@);
            },
            _ => {},
        },
        None => {},
    }
    if n == 0 {
        1
    } else {
        n
    }
}

/// A transcript line read as a record with the one optional field
/// `isSidechain` (other fields are passed over).
#[derive(Clone, Copy, Debug, PartialEq, Eq, Structural)]
pub struct SidechainProbe {
    pub is_sidechain: Option<bool>,
}

/// A line written by a sub-agent: it mentions `isSidechain`, it reads as a
/// probe (`probe` is that reading, `None` when the line does not read as
/// one), and the probe's flag is set.
pub open spec fn spec_is_sidechain(line: Seq<char>, probe: Option<SidechainProbe>) -> bool {
    contains_str(line, "isSidechain"@) && probe == Some(SidechainProbe { is_sidechain: Some(true) })
}

/// Whether a transcript line was written by a sub-agent, given the line and
/// its reading as a probe. A line that does not mention the flag is not one,
/// whatever the probe says.
pub fn is_sidechain(line: &str, probe: Option<SidechainProbe>) -> (r: bool)
    ensures
        r == spec_is_sidechain(line@, probe),
{
    if !str_contains(line, "isSidechain") {
        return false;
    }
    match probe {
        Some(p) => match p.is_sidechain {
            Some(b) => b,
            None => false,
        },
        None => false,
    }
}

} // verus!

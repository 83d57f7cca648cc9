//! Sessions and messages read from the Hermes state database.
//!
//! The database is queried elsewhere; these functions turn the rows it gives
//! into sessions and messages.

use vstd::prelude::*;
use crate::cli::{spec_within, Age};
use crate::json::{spec_as_str, spec_get_opt, spec_parse_json, spec_pretty_json, JsonValue};
use crate::model::{clone_opt, message_views, Message, MessageType, MessageView, Timestamp};
use crate::paths::{path_file_name, path_join, spec_path_file_name, spec_path_join};
use crate::text::{is_blank, str_eq, str_is_blank};
use crate::watcher::{discovered_views, DiscoveredSession, DiscoveredView};

verus! {

/// The usual place of the Hermes database: `.hermes/state.db` in the home
/// directory, when that is known.
pub fn default_db_path(home: &Option<String>) -> (r: Option<String>)
    ensures
        r.deep_view() == match home {
            Some(h) => Some(spec_path_join(spec_path_join(h@, ".hermes"@), "state.db"@)),
            None => None,
        },
{
    match home {
        Some(h) => {
            let dir = path_join(h.as_str(), ".hermes");
            Some(path_join(dir.as_str(), "state.db"))
        },
        None => None,
    }
}

/// A row of Hermes' `sessions` table, with the start time already reduced to
/// whole seconds since the epoch.
pub struct HermesSessionRow {
    pub id: String,
    pub cwd: Option<String>,
    pub git_repo_root: Option<String>,
    pub started_secs: u64,
}

/// The project a Hermes session belongs to: the last component of its git
/// repository root, or of its working directory when it has no repository
/// root; `hermes` when there is neither or the path has no last component.
pub open spec fn spec_hermes_project_name(git_repo_root: Option<String>, cwd: Option<String>) -> Seq<
    char,
> {
    let path = match git_repo_root {
        Some(p) => Some(p),
        None => cwd,
    };
    match path {
        Some(p) => match spec_path_file_name(p@) {
            Some(n) => n,
            None => "hermes"@,
        },
        None => "hermes"@,
    }
}

pub fn hermes_project_name(git_repo_root: &Option<String>, cwd: &Option<String>) -> (r: String)
    ensures
        r@ == spec_hermes_project_name(*git_repo_root, *cwd),
{
    let path = match git_repo_root {
        Some(p) => Some(p),
        None => match cwd {
            Some(c) => Some(c),
            None => None,
        },
    };
    match path {
        Some(p) => match path_file_name(p.as_str()) {
            Some(n) => n,
            None => "hermes".to_owned(),
        },
        None => "hermes".to_owned(),
    }
}

/// The session that a Hermes `sessions` row describes.
pub open spec fn spec_hermes_session(db_path: Seq<char>, row: HermesSessionRow) -> DiscoveredView {
    DiscoveredView {
        session_id: row.id@,
        project_name: spec_hermes_project_name(row.git_repo_root, row.cwd),
        harness: "hermes"@,
        file_path: db_path,
        last_modified: Timestamp { secs: row.started_secs as i64, nanos: 0 },
    }
}

/// The sessions listed in the Hermes database at `db_path`, one per row and
/// in the rows' order.
pub fn discover_sessions(db_path: &str, rows: Vec<HermesSessionRow>) -> (r: Vec<DiscoveredSession>)
    requires
        forall|i: int| 0 <= i < rows@.len() ==> #[trigger] rows@[i].started_secs <= i64::MAX,
    ensures
        discovered_views(r@) == rows@.map_values(|row: HermesSessionRow| spec_hermes_session(db_path@, row)),
{
    let mut out: Vec<DiscoveredSession> = Vec::new();
    let mut i: usize = 0;
    while i < rows.len()
        invariant
            i <= rows@.len(),
            forall|j: int| 0 <= j < rows@.len() ==> #[trigger] rows@[j].started_secs <= i64::MAX,
            discovered_views(out@) =~= rows@.take(i as int).map_values(
                |row: HermesSessionRow| spec_hermes_session(db_path@, row),
            ),
        decreases rows@.len() - i,
    {
        let row = &rows[i];
        let project_name = hermes_project_name(&row.git_repo_root, &row.cwd);
        proof {
            reveal_strlit("hermes");
        }
        let ghost before = out@;
        out.push(
            DiscoveredSession {
                session_id: row.id.clone(),
                project_name,
                harness: "hermes".to_owned(),
                file_path: db_path.to_owned(),
                last_modified: Timestamp { secs: row.started_secs as i64, nanos: 0 },
            },
        );
        assert(out@ == before.push(out@.last()));
        assert(out@.last()@ == spec_hermes_session(db_path@, rows@[i as int]));
        assert(discovered_views(out@) =~= discovered_views(before).push(out@.last()@));
        assert(rows@.take(i as int + 1) =~= rows@.take(i as int).push(rows@[i as int]));
        i = i + 1;
    }
    assert(rows@.take(rows@.len() as int) =~= rows@);
    out
}

/// A row of Hermes' `messages` table, with its time already converted.
pub struct HermesMessageRow {
    pub id: i64,
    pub role: String,
    pub content: Option<String>,
    pub tool_call_id: Option<String>,
    /// The JSON text of the row's tool calls.
    pub tool_calls: Option<String>,
    pub tool_name: Option<String>,
    pub timestamp: Timestamp,
    pub token_count: Option<i64>,
}

/// The calls listed in a tool-calls text: the elements of the JSON array it
/// holds, or none when it holds no array.
pub open spec fn listed_calls(text: Seq<char>) -> Seq<JsonValue> {
    match spec_parse_json(text) {
        Some(JsonValue::Array(items)) => items@,
        _ => Seq::empty(),
    }
}

/// The first of the listed calls.
pub open spec fn first_call(text: Seq<char>) -> Option<JsonValue> {
    if listed_calls(text).len() > 0 {
        Some(listed_calls(text)[0])
    } else {
        None
    }
}

/// The name of the first call's function.
pub open spec fn first_call_name(text: Seq<char>) -> Option<Seq<char>> {
    spec_as_str(spec_get_opt(spec_get_opt(first_call(text), "function"@), "name"@))
}

/// The id of the first call: its `call_id`, or else its `id`.
pub open spec fn first_call_id(text: Seq<char>) -> Option<Seq<char>> {
    match spec_as_str(spec_get_opt(first_call(text), "call_id"@)) {
        Some(s) => Some(s),
        None => spec_as_str(spec_get_opt(first_call(text), "id"@)),
    }
}

/// The shown content of a tool-call row: for a single call, its arguments
/// (pretty-printed when they are JSON); otherwise the whole list
/// pretty-printed.
pub open spec fn tool_calls_content(text: Seq<char>) -> Seq<char> {
    if listed_calls(text).len() == 1 {
        match spec_as_str(spec_get_opt(spec_get_opt(first_call(text), "function"@), "arguments"@)) {
            Some(a) => match spec_parse_json(a) {
                Some(v) => match spec_pretty_json(v) {
                    Some(p) => p,
                    None => a,
                },
                None => a,
            },
            None => Seq::empty(),
        }
    } else {
        match spec_parse_json(text) {
            Some(JsonValue::Array(items)) => match spec_pretty_json(JsonValue::Array(items)) {
                Some(p) => p,
                None => text,
            },
            _ => "[]"@,
        }
    }
}

/// A message of a Hermes session built from one row.
pub open spec fn hermes_message(
    row: HermesMessageRow,
    session_id: Seq<char>,
    model: Option<Seq<char>>,
    message_type: MessageType,
    content: Seq<char>,
    tool_name: Option<Seq<char>>,
    tool_use_id: Option<Seq<char>>,
    input_tokens: Option<u32>,
    output_tokens: Option<u32>,
) -> MessageView {
    MessageView {
        id: None,
        session_id,
        sequence_num: row.id as u64,
        message_type,
        timestamp: row.timestamp,
        content,
        tool_name,
        tool_use_id,
        anthropic_msg_id: None,
        request_id: None,
        input_tokens,
        output_tokens,
        tokens_estimated: false,
        model,
    }
}

/// A row's token count narrowed to 32 bits (the low 32 bits are kept).
pub open spec fn row_tokens(row: HermesMessageRow) -> Option<u32> {
    match row.token_count {
        Some(t) => Some(t as u32),
        None => None,
    }
}

/// The text content of a row, empty when it has none.
pub open spec fn row_text(row: HermesMessageRow) -> Seq<char> {
    match row.content {
        Some(c) => c@,
        None => Seq::empty(),
    }
}

/// The message a Hermes row gives, if any: user and assistant rows with
/// visible text, assistant rows with tool calls, and tool rows. Rows of any
/// other role, and blank user or assistant text, give none.
pub open spec fn spec_row_message(
    row: HermesMessageRow,
    session_id: Seq<char>,
    model: Option<Seq<char>>,
) -> Option<MessageView> {
    if row.role@ == "user"@ {
        if is_blank(row_text(row)) {
            None
        } else {
            Some(
                hermes_message(
                    row,
                    session_id,
                    model,
                    MessageType::User,
                    row_text(row),
                    None,
                    None,
                    row_tokens(row),
                    None,
                ),
            )
        }
    } else if row.role@ == "assistant"@ && row.tool_calls is Some {
        let calls = row.tool_calls->0@;
        Some(
            hermes_message(
                row,
                session_id,
                model,
                MessageType::ToolCall,
                tool_calls_content(calls),
                first_call_name(calls),
                first_call_id(calls),
                None,
                None,
            ),
        )
    } else if row.role@ == "assistant"@ {
        if is_blank(row_text(row)) {
            None
        } else {
            Some(
                hermes_message(
                    row,
                    session_id,
                    model,
                    MessageType::Assistant,
                    row_text(row),
                    None,
                    None,
                    None,
                    row_tokens(row),
                ),
            )
        }
    } else if row.role@ == "tool"@ {
        Some(
            hermes_message(
                row,
                session_id,
                model,
                MessageType::ToolResult,
                row_text(row),
                row.tool_name.deep_view(),
                row.tool_call_id.deep_view(),
                None,
                None,
            ),
        )
    } else {
        None
    }
}

/// The messages that a run of Hermes rows gives, in the rows' order.
pub open spec fn spec_rows_messages(
    rows: Seq<HermesMessageRow>,
    session_id: Seq<char>,
    model: Option<Seq<char>>,
) -> Seq<MessageView>
    decreases rows.len(),
{
    if rows.len() == 0 {
        Seq::empty()
    } else {
        let prev = spec_rows_messages(rows.drop_last(), session_id, model);
        match spec_row_message(rows.last(), session_id, model) {
            Some(m) => prev.push(m),
            None => prev,
        }
    }
}

fn str_of<'a>(v: Option<&'a JsonValue>) -> (r: Option<&'a str>)
    ensures
        match r {
            Some(s) => spec_as_str(match v {
                Some(x) => Some(*x),
                None => None,
            }) == Some(s@),
            None => spec_as_str(match v {
                Some(x) => Some(*x),
                None => None,
            }) is None,
        },
{
    match v {
        Some(x) => x.as_str(),
        None => None,
    }
}

fn member<'a>(v: Option<&'a JsonValue>, key: &str) -> (r: Option<&'a JsonValue>)
    ensures
        match r {
            Some(x) => spec_get_opt(
                match v {
                    Some(y) => Some(*y),
                    None => None,
                },
                key@,
            ) == Some(*x),
            None => spec_get_opt(
                match v {
                    Some(y) => Some(*y),
                    None => None,
                },
                key@,
            ) is None,
        },
{
    match v {
        Some(x) => x.get(key),
        None => None,
    }
}

/// The tool name, call id and shown content of a tool-calls text.
fn tool_call_fields(text: &str) -> (r: (Option<String>, Option<String>, String))
    ensures
        r.0.deep_view() == first_call_name(text@),
        r.1.deep_view() == first_call_id(text@),
        r.2@ == tool_calls_content(text@),
{
    let parsed = JsonValue::parse(text);
    let empty: Vec<JsonValue> = Vec::new();
    let calls: &Vec<JsonValue> = match &parsed {
        Some(JsonValue::Array(items)) => items,
        _ => &empty,
    };
    assert(calls@ == listed_calls(text@));
    let first: Option<&JsonValue> = if calls.len() > 0 {
        Some(&calls[0])
    } else {
        None
    };
    let function = member(first, "function");
    let name = match str_of(member(function, "name")) {
        Some(s) => Some(s.to_owned()),
        None => None,
    };
    let id = match str_of(member(first, "call_id")) {
        Some(s) => Some(s.to_owned()),
        None => match str_of(member(first, "id")) {
            Some(s) => Some(s.to_owned()),
            None => None,
        },
    };
    let content = if calls.len() == 1 {
        match str_of(member(function, "arguments")) {
            Some(a) => match JsonValue::parse(a) {
                Some(v) => match v.to_pretty() {
                    Some(p) => p,
                    None => a.to_owned(),
                },
                None => a.to_owned(),
            },
            None => String::new(),
        }
    } else {
        let printed = match &parsed {
            Some(whole) => match whole {
                JsonValue::Array(_) => whole.to_pretty(),
                _ => JsonValue::Array(Vec::new()).to_pretty(),
            },
            None => JsonValue::Array(Vec::new()).to_pretty(),
        };
        match printed {
            Some(p) => p,
            None => text.to_owned(),
        }
    };
    (name, id, content)
}

fn narrow(v: Option<i64>) -> (r: Option<u32>)
    ensures
        r == match v {
            Some(t) => Some(t as u32),
            None => None,
        },
{
    match v {
        Some(t) => Some(t as u32),
        None => None,
    }
}

fn owned(o: &Option<&str>) -> (r: Option<String>)
    ensures
        r.deep_view() == match o {
            Some(s) => Some(s@),
            None => None,
        },
{
    match o {
        Some(s) => Some((*s).to_owned()),
        None => None,
    }
}

/// The message that one Hermes row gives, if any.
pub fn row_message(row: &HermesMessageRow, session_id: &str, model: Option<&str>) -> (r: Option<
    Message,
>)
    ensures
        match r {
            Some(m) => spec_row_message(*row, session_id@, owned_view(model)) == Some(m@),
            None => spec_row_message(*row, session_id@, owned_view(model)) is None,
        },
{
    let seq = row.id as u64;
    let role = row.role.as_str();
    if str_eq(role, "user") {
        let text = match &row.content {
            Some(c) => c.clone(),
            None => String::new(),
        };
        if str_is_blank(text.as_str()) {
            return None;
        }
        Some(
            Message {
                id: None,
                session_id: session_id.to_owned(),
                sequence_num: seq,
                message_type: MessageType::User,
                timestamp: row.timestamp,
                content: text,
                tool_name: None,
                tool_use_id: None,
                anthropic_msg_id: None,
                request_id: None,
                input_tokens: narrow(row.token_count),
                output_tokens: None,
                tokens_estimated: false,
                model: owned(&model),
            },
        )
    } else if str_eq(role, "assistant") && row.tool_calls.is_some() {
        let calls = match &row.tool_calls {
            Some(c) => c.as_str(),
            None => "",
        };
        let (tool_name, tool_use_id, content) = tool_call_fields(calls);
        Some(
            Message {
                id: None,
                session_id: session_id.to_owned(),
                sequence_num: seq,
                message_type: MessageType::ToolCall,
                timestamp: row.timestamp,
                content,
                tool_name,
                tool_use_id,
                anthropic_msg_id: None,
                request_id: None,
                input_tokens: None,
                output_tokens: None,
                tokens_estimated: false,
                model: owned(&model),
            },
        )
    } else if str_eq(role, "assistant") {
        let text = match &row.content {
            Some(c) => c.clone(),
            None => String::new(),
        };
        if str_is_blank(text.as_str()) {
            return None;
        }
        Some(
            Message {
                id: None,
                session_id: session_id.to_owned(),
                sequence_num: seq,
                message_type: MessageType::Assistant,
                timestamp: row.timestamp,
                content: text,
                tool_name: None,
                tool_use_id: None,
                anthropic_msg_id: None,
                request_id: None,
                input_tokens: None,
                output_tokens: narrow(row.token_count),
                tokens_estimated: false,
                model: owned(&model),
            },
        )
    } else if str_eq(role, "tool") {
        let text = match &row.content {
            Some(c) => c.clone(),
            None => String::new(),
        };
        Some(
            Message {
                id: None,
                session_id: session_id.to_owned(),
                sequence_num: seq,
                message_type: MessageType::ToolResult,
                timestamp: row.timestamp,
                content: text,
                tool_name: clone_opt(&row.tool_name),
                tool_use_id: clone_opt(&row.tool_call_id),
                anthropic_msg_id: None,
                request_id: None,
                input_tokens: None,
                output_tokens: None,
                tokens_estimated: false,
                model: owned(&model),
            },
        )
    } else {
        None
    }
}

/// The characters of an optional borrowed string.
pub open spec fn owned_view(o: Option<&str>) -> Option<Seq<char>> {
    match o {
        Some(s) => Some(s@),
        None => None,
    }
}

/// The messages of a session from the rows newly read from the Hermes
/// database: each row gives at most one message, numbered by the row's id.
pub fn messages_from_rows(rows: Vec<HermesMessageRow>, session_id: &str, model: Option<&str>) -> (r:
    Vec<Message>)
    ensures
        message_views(r@) == spec_rows_messages(rows@, session_id@, owned_view(model)),
{
    let ghost all = rows@;
    let mut out: Vec<Message> = Vec::new();
    assert(message_views(out@) =~= spec_rows_messages(all.take(0), session_id@, owned_view(model)));
    let mut i: usize = 0;
    while i < rows.len()
        invariant
            i <= all.len(),
            rows@ == all,
            message_views(out@) == spec_rows_messages(all.take(i as int), session_id@, owned_view(model)),
        decreases all.len() - i,
    {
        assert(all.take(i as int + 1).drop_last() =~= all.take(i as int));
        match row_message(&rows[i], session_id, model) {
            Some(m) => {
                out.push(m);
            },
            None => {},
        }
        assert(message_views(out@) =~= spec_rows_messages(all.take(i as int + 1), session_id@, owned_view(model)));
        i = i + 1;
    }
    assert(all.take(all.len() as int) =~= all);
    out
}

/// Where reading resumes after a batch of messages: the number of the last
/// one, or the old cursor when the batch is empty.
pub open spec fn spec_next_cursor(last_id: u64, ms: Seq<MessageView>) -> u64 {
    if ms.len() == 0 {
        last_id
    } else {
        ms.last().sequence_num
    }
}

/// Where reading resumes after a batch of messages: the number of the last
/// message read, or the old cursor when nothing new came.
pub fn next_cursor(last_id: u64, messages: &Vec<Message>) -> (r: u64)
    ensures
        r == spec_next_cursor(last_id, message_views(messages@)),
        messages@.len() == 0 ==> r == last_id,
        messages@.len() > 0 ==> r == messages@.last().sequence_num,
{
    if messages.len() == 0 {
        last_id
    } else {
        messages[messages.len() - 1].sequence_num
    }
}

/// What to do with a session found in the Hermes database.
#[derive(Clone, Copy, Debug, PartialEq, Eq, Structural)]
pub enum NewSessionDecision {
    /// The session is already known: nothing to do.
    AlreadyKnown,
    /// The session is new but older than the age limit: remember it only.
    TooOld,
    /// The session is new: register it and start watching it.
    Attach,
}

/// The sessions already seen by the Hermes session watcher.
pub struct KnownSessions {
    ids: Vec<String>,
}

/// An age beyond the limit of `max_age` minutes; an unknown age is not.
pub open spec fn spec_too_old(age: Option<Age>, max_age: u64) -> bool {
    match age {
        Some(a) => !spec_within(a, max_age),
        None => false,
    }
}

/// The decision for a session `id` of age `age`, given the known ids, and
/// the known ids afterwards.
pub open spec fn spec_consider(known: Set<Seq<char>>, id: Seq<char>, age: Option<Age>, max_age: u64) -> (
    NewSessionDecision,
    Set<Seq<char>>,
) {
    if known.contains(id) {
        (NewSessionDecision::AlreadyKnown, known)
    } else if max_age > 0 && spec_too_old(age, max_age) {
        (NewSessionDecision::TooOld, known.insert(id))
    } else {
        (NewSessionDecision::Attach, known.insert(id))
    }
}

impl View for KnownSessions {
    type V = Set<Seq<char>>;

    closed spec fn view(&self) -> Set<Seq<char>> {
        self.ids@.map_values(|s: String| s@).to_set()
    }
}

impl KnownSessions {
    /// The sessions known at start-up.
    pub fn new(initial: Vec<String>) -> (r: KnownSessions)
        ensures
            r@ == initial@.map_values(|s: String| s@).to_set(),
    {
        KnownSessions { ids: initial }
    }

    pub fn contains(&self, id: &str) -> (r: bool)
        ensures
            r == self@.contains(id@),
    {
        let mut i: usize = 0;
        while i < self.ids.len()
            invariant
                i <= self.ids@.len(),
                forall|j: int| 0 <= j < i ==> self.ids@[j]@ != id@,
            decreases self.ids@.len() - i,
        {
            if str_eq(self.ids[i].as_str(), id) {
                assert(self.ids@.map_values(|s: String| s@)[i as int] == id@);
                return true;
            }
            i = i + 1;
        }
        proof {
            if self@.contains(id@) {
                let views = self.ids@.map_values(|s: String| s@);
                assert(views.contains(id@));
                let j = choose|j: int| 0 <= j < views.len() && views[j] == id@;
                assert(self.ids@[j]@ == id@);
            }
        }
        false
    }

    /// Decides what to do with the session `id` of age `age` under a limit of
    /// `max_age` minutes (0 for none), and remembers it.
    pub fn consider(&mut self, id: &str, age: Option<Age>, max_age: u64) -> (r: NewSessionDecision)
        requires
            max_age * 60 <= u64::MAX,
        ensures
            (r, final(self)@) == spec_consider(old(self)@, id@, age, max_age),
    {
        if self.contains(id) {
            return NewSessionDecision::AlreadyKnown;
        }
        let too_old = max_age > 0 && match age {
            Some(_) => !crate::cli::age_within(age, max_age),
            None => false,
        };
        let ghost before = self.ids@;
        self.ids.push(id.to_owned());
        proof {
            let f = |s: String| s@;
            before.lemma_push_map_commute(f, self.ids@.last());
            assert(self.ids@ == before.push(self.ids@.last()));
            before.map_values(f).lemma_push_to_set_commute(id@);
        }
        if too_old {
            NewSessionDecision::TooOld
        } else {
            NewSessionDecision::Attach
        }
    }
}

/// Once considered, a session is known: considering it again does nothing.
pub proof fn lemma_consider_once(
    known: Set<Seq<char>>,
    id: Seq<char>,
    age: Option<Age>,
    later_age: Option<Age>,
    max_age: u64,
)
    ensures
        ({
            let after = spec_consider(known, id, age, max_age).1;
            spec_consider(after, id, later_age, max_age) == (NewSessionDecision::AlreadyKnown, after)
        }),
{
}

/// Rows read in increasing order of their (non-negative) ids give at most
/// one message each, all of the session and its model, numbered by their
/// rows' ids and so in increasing order, none beyond the last row's id: the
/// last number is where reading resumes.
pub proof fn lemma_rows_messages_ordered(
    rows: Seq<HermesMessageRow>,
    session_id: Seq<char>,
    model: Option<Seq<char>>,
)
    requires
        forall|i: int, j: int| 0 <= i < j < rows.len() ==> (#[trigger] rows[i]).id < (#[trigger] rows[j]).id,
        forall|i: int| 0 <= i < rows.len() ==> 0 <= (#[trigger] rows[i]).id,
    ensures
        ({
            let ms = spec_rows_messages(rows, session_id, model);
            &&& ms.len() <= rows.len()
            &&& forall|i: int|
                0 <= i < ms.len() ==> (#[trigger] ms[i]).session_id == session_id && ms[i].model
                    == model && ms[i].sequence_num <= rows.last().id
            &&& forall|i: int, j: int|
                0 <= i < j < ms.len() ==> (#[trigger] ms[i]).sequence_num < (
                #[trigger] ms[j]).sequence_num
        }),
    decreases rows.len(),
{
    if rows.len() > 0 {
        let prev_rows = rows.drop_last();
        lemma_rows_messages_ordered(prev_rows, session_id, model);
        if prev_rows.len() > 0 {
            assert(prev_rows.last().id < rows.last().id);
        }
    }
}

/// Rows all past `cursor` give messages all past `cursor`.
proof fn lemma_rows_messages_above(
    rows: Seq<HermesMessageRow>,
    session_id: Seq<char>,
    model: Option<Seq<char>>,
    cursor: int,
)
    requires
        0 <= cursor,
        forall|i: int| 0 <= i < rows.len() ==> cursor < (#[trigger] rows[i]).id,
    ensures
        forall|i: int|
            0 <= i < spec_rows_messages(rows, session_id, model).len() ==> cursor < (
            #[trigger] spec_rows_messages(rows, session_id, model)[i]).sequence_num,
    decreases rows.len(),
{
    if rows.len() > 0 {
        let prev_rows = rows.drop_last();
        lemma_rows_messages_above(prev_rows, session_id, model, cursor);
        assert(cursor < rows.last().id);
    }
}

/// A polling round that reads, in increasing order of id, only rows past the
/// cursor gives messages past the cursor, in increasing order, none past
/// the cursor it leaves behind; and that cursor does not go back.
pub proof fn lemma_cursor_advances(
    rows: Seq<HermesMessageRow>,
    session_id: Seq<char>,
    model: Option<Seq<char>>,
    cursor: u64,
)
    requires
        forall|i: int, j: int| 0 <= i < j < rows.len() ==> (#[trigger] rows[i]).id < (#[trigger] rows[j]).id,
        forall|i: int| 0 <= i < rows.len() ==> cursor < (#[trigger] rows[i]).id,
    ensures
        ({
            let ms = spec_rows_messages(rows, session_id, model);
            let next = spec_next_cursor(cursor, ms);
            &&& cursor <= next
            &&& forall|i: int|
                0 <= i < ms.len() ==> cursor < (#[trigger] ms[i]).sequence_num && ms[i].sequence_num
                    <= next
            &&& forall|i: int, j: int|
                0 <= i < j < ms.len() ==> (#[trigger] ms[i]).sequence_num < (
                #[trigger] ms[j]).sequence_num
        }),
{
    lemma_rows_messages_above(rows, session_id, model, cursor as int);
    lemma_rows_messages_ordered(rows, session_id, model);
    let ms = spec_rows_messages(rows, session_id, model);
    if ms.len() > 0 {
        assert(cursor < ms[ms.len() - 1].sequence_num);
        assert forall|i: int| 0 <= i < ms.len() implies (#[trigger] ms[i]).sequence_num
            <= spec_next_cursor(cursor, ms) by {
            if i < ms.len() - 1 {
                assert(ms[i].sequence_num < ms[ms.len() - 1].sequence_num);
            }
        }
    }
}

/// Polling never gives a row twice: when the second round reads only rows
/// past the cursor the first round left, every message of the second round
/// comes after every message of the first.
pub proof fn lemma_polls_never_repeat(
    first: Seq<HermesMessageRow>,
    second: Seq<HermesMessageRow>,
    session_id: Seq<char>,
    model: Option<Seq<char>>,
    cursor: u64,
)
    requires
        forall|i: int, j: int| 0 <= i < j < first.len() ==> (#[trigger] first[i]).id < (#[trigger] first[j]).id,
        forall|i: int| 0 <= i < first.len() ==> cursor < (#[trigger] first[i]).id,
        forall|i: int, j: int| 0 <= i < j < second.len() ==> (#[trigger] second[i]).id < (#[trigger] second[j]).id,
        forall|i: int|
            0 <= i < second.len() ==> spec_next_cursor(cursor, spec_rows_messages(first, session_id, model))
                < (#[trigger] second[i]).id,
    ensures
        ({
            let a = spec_rows_messages(first, session_id, model);
            let b = spec_rows_messages(second, session_id, model);
            forall|i: int, j: int|
                0 <= i < a.len() && 0 <= j < b.len() ==> (#[trigger] a[i]).sequence_num < (
                #[trigger] b[j]).sequence_num
        }),
{
    lemma_cursor_advances(first, session_id, model, cursor);
    let next = spec_next_cursor(cursor, spec_rows_messages(first, session_id, model));
    lemma_cursor_advances(second, session_id, model, next);
}

/// The decisions for sessions considered in turn, each with its age, and the
/// known ids afterwards.
pub open spec fn spec_consider_all(
    known: Set<Seq<char>>,
    seen: Seq<(Seq<char>, Option<Age>)>,
    max_age: u64,
) -> (Seq<NewSessionDecision>, Set<Seq<char>>)
    decreases seen.len(),
{
    if seen.len() == 0 {
        (Seq::empty(), known)
    } else {
        let prev = spec_consider_all(known, seen.drop_last(), max_age);
        let step = spec_consider(prev.1, seen.last().0, seen.last().1, max_age);
        (prev.0.push(step.0), step.1)
    }
}

proof fn lemma_consider_all_knows(
    known: Set<Seq<char>>,
    seen: Seq<(Seq<char>, Option<Age>)>,
    max_age: u64,
)
    ensures
        ({
            let r = spec_consider_all(known, seen, max_age);
            &&& r.0.len() == seen.len()
            &&& forall|x: Seq<char>| known.contains(x) ==> #[trigger] r.1.contains(x)
            &&& forall|j: int| 0 <= j < seen.len() ==> r.1.contains(#[trigger] seen[j].0)
        }),
    decreases seen.len(),
{
    if seen.len() > 0 {
        let prev_seen = seen.drop_last();
        lemma_consider_all_knows(known, prev_seen, max_age);
        let prev = spec_consider_all(known, prev_seen, max_age);
        let r = spec_consider_all(known, seen, max_age);
        assert(forall|x: Seq<char>| prev.1.contains(x) ==> #[trigger] r.1.contains(x));
        assert(r.1.contains(seen.last().0));
        assert forall|j: int| 0 <= j < seen.len() implies r.1.contains(#[trigger] seen[j].0) by {
            if j < seen.len() - 1 {
                assert(seen[j] == prev_seen[j]);
            }
        }
    }
}

/// Watching for new sessions attaches each at most once, never one known at
/// start-up, and, under an age limit, never one older than the limit.
pub proof fn lemma_attach_once(
    known: Set<Seq<char>>,
    seen: Seq<(Seq<char>, Option<Age>)>,
    max_age: u64,
)
    ensures
        ({
            let ds = spec_consider_all(known, seen, max_age).0;
            &&& ds.len() == seen.len()
            &&& forall|i: int|
                0 <= i < ds.len() && #[trigger] ds[i] == NewSessionDecision::Attach ==> !known.contains(
                    seen[i].0,
                ) && (max_age > 0 ==> !spec_too_old(seen[i].1, max_age))
            &&& forall|i: int, j: int|
                0 <= i < j < ds.len() && #[trigger] ds[i] == NewSessionDecision::Attach && #[trigger] ds[j]
                    == NewSessionDecision::Attach ==> seen[i].0 != seen[j].0
        }),
    decreases seen.len(),
{
    lemma_consider_all_knows(known, seen, max_age);
    if seen.len() > 0 {
        let prev_seen = seen.drop_last();
        lemma_attach_once(known, prev_seen, max_age);
        lemma_consider_all_knows(known, prev_seen, max_age);
        let prev = spec_consider_all(known, prev_seen, max_age);
        let ds = spec_consider_all(known, seen, max_age).0;
        let n = seen.len() - 1;
        assert(ds == prev.0.push(spec_consider(prev.1, seen[n].0, seen[n].1, max_age).0));
        assert forall|i: int|
            0 <= i < ds.len() && #[trigger] ds[i] == NewSessionDecision::Attach implies !known.contains(
                seen[i].0,
            ) && (max_age > 0 ==> !spec_too_old(seen[i].1, max_age)) by {
            if i < n {
                assert(ds[i] == prev.0[i]);
                assert(seen[i] == prev_seen[i]);
            }
        }
        assert forall|i: int, j: int|
            0 <= i < j < ds.len() && #[trigger] ds[i] == NewSessionDecision::Attach && #[trigger] ds[j]
                == NewSessionDecision::Attach implies seen[i].0 != seen[j].0 by {
            assert(ds[i] == prev.0[i]);
            assert(seen[i] == prev_seen[i]);
            if j < n {
                assert(ds[j] == prev.0[j]);
                assert(seen[j] == prev_seen[j]);
            } else {
                assert(prev.1.contains(prev_seen[i].0));
            }
        }
    }
}

/// A row of role `tool` always gives a message: a tool result carrying the
/// row's content column as it is (empty only when the column is null), the
/// row's tool name and call id, numbered with the row's id, and without
/// token counts.
pub proof fn lemma_tool_row_message(row: HermesMessageRow, session_id: Seq<char>, model: Option<Seq<char>>)
    requires
        row.role@ == "tool"@,
    ensures
        spec_row_message(row, session_id, model) matches Some(m) && m.message_type == MessageType::ToolResult
            && m.content == (match row.content {
            Some(c) => c@,
            None => Seq::<char>::empty(),
        }) && m.tool_name == row.tool_name.deep_view() && m.tool_use_id == row.tool_call_id.deep_view()
            && m.sequence_num == row.id as u64 && m.session_id == session_id && m.model == model
            && m.input_tokens is None && m.output_tokens is None,
{
    reveal_strlit("tool");
    reveal_strlit("user");
    reveal_strlit("assistant");
    assert("tool"@[0] != "user"@[0] && "tool"@[0] != "assistant"@[0]);
}

} // verus!

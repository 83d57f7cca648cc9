use viztokens::cli::Age;
use viztokens::hermes::{
    default_db_path, discover_sessions, hermes_project_name, messages_from_rows, next_cursor,
    row_message, HermesMessageRow, HermesSessionRow, KnownSessions, NewSessionDecision,
};
use viztokens::model::{MessageType, Timestamp};

fn s(v: &str) -> Option<String> {
    Some(v.to_string())
}

#[test]
fn default_db_path_is_under_home() {
    assert_eq!(default_db_path(&s("/home/u")), s("/home/u/.hermes/state.db"));
    assert_eq!(default_db_path(&None), None);
}

#[test]
fn project_name_prefers_repository_root() {
    assert_eq!(hermes_project_name(&s("/a/b/repo"), &s("/x/y")), "repo");
    assert_eq!(hermes_project_name(&None, &s("/x/y")), "y");
    assert_eq!(hermes_project_name(&None, &None), "hermes");
}

#[test]
fn project_name_without_last_component_is_hermes() {
    // The repository root is taken even when it has no last component.
    assert_eq!(hermes_project_name(&s("/"), &s("/x/y")), "hermes");
    assert_eq!(hermes_project_name(&s("/a/.."), &None), "hermes");
}

#[test]
fn discover_sessions_builds_one_session_per_row() {
    let rows = vec![
        HermesSessionRow { id: "h1".to_string(), cwd: s("/w/site"), git_repo_root: None, started_secs: 1_700_000_000 },
        HermesSessionRow { id: "h2".to_string(), cwd: None, git_repo_root: s("/r/tool"), started_secs: 5 },
    ];
    let found = discover_sessions("/home/u/.hermes/state.db", rows);
    assert_eq!(found.len(), 2);
    assert_eq!(found[0].session_id, "h1");
    assert_eq!(found[0].project_name, "site");
    assert_eq!(found[0].harness, "hermes");
    assert_eq!(found[0].file_path, "/home/u/.hermes/state.db");
    assert_eq!(found[0].last_modified, Timestamp { secs: 1_700_000_000, nanos: 0 });
    assert_eq!(found[1].session_id, "h2");
    assert_eq!(found[1].project_name, "tool");
    assert_eq!(found[1].last_modified, Timestamp { secs: 5, nanos: 0 });
}

fn row(id: i64, role: &str, content: Option<&str>, tool_calls: Option<&str>) -> HermesMessageRow {
    HermesMessageRow {
        id,
        role: role.to_string(),
        content: content.map(|c| c.to_string()),
        tool_call_id: None,
        tool_calls: tool_calls.map(|c| c.to_string()),
        tool_name: None,
        timestamp: Timestamp { secs: 1_000, nanos: 250 },
        token_count: Some(12),
    }
}

#[test]
fn user_row_gives_user_message_with_input_tokens() {
    let m = row_message(&row(3, "user", Some("hi"), None), "h1", Some("gpt")).unwrap();
    assert_eq!(m.message_type, MessageType::User);
    assert_eq!(m.sequence_num, 3);
    assert_eq!(m.session_id, "h1");
    assert_eq!(m.content, "hi");
    assert_eq!(m.input_tokens, Some(12));
    assert_eq!(m.output_tokens, None);
    assert_eq!(m.model.as_deref(), Some("gpt"));
    assert_eq!(m.timestamp, Timestamp { secs: 1_000, nanos: 250 });
}

#[test]
fn blank_user_and_assistant_rows_are_skipped() {
    assert!(row_message(&row(1, "user", Some("  \n"), None), "h1", None).is_none());
    assert!(row_message(&row(1, "user", None, None), "h1", None).is_none());
    assert!(row_message(&row(1, "assistant", Some(""), None), "h1", None).is_none());
}

#[test]
fn assistant_row_gives_output_tokens() {
    let m = row_message(&row(4, "assistant", Some("done"), None), "h1", None).unwrap();
    assert_eq!(m.message_type, MessageType::Assistant);
    assert_eq!(m.content, "done");
    assert_eq!(m.input_tokens, None);
    assert_eq!(m.output_tokens, Some(12));
    assert_eq!(m.model, None);
}

#[test]
fn single_tool_call_shows_pretty_arguments() {
    let calls = r#"[{"call_id":"c1","id":"x","function":{"name":"read","arguments":"{\"path\":\"a.txt\"}"}}]"#;
    let m = row_message(&row(5, "assistant", None, Some(calls)), "h1", None).unwrap();
    assert_eq!(m.message_type, MessageType::ToolCall);
    assert_eq!(m.tool_name.as_deref(), Some("read"));
    assert_eq!(m.tool_use_id.as_deref(), Some("c1"));
    assert_eq!(m.content, "{\n  \"path\": \"a.txt\"\n}");
    assert_eq!(m.input_tokens, None);
    assert_eq!(m.output_tokens, None);
}

#[test]
fn tool_call_id_falls_back_to_id_and_raw_arguments_stay() {
    let calls = r#"[{"id":"x9","function":{"name":"run","arguments":"not json"}}]"#;
    let m = row_message(&row(6, "assistant", Some("ignored"), Some(calls)), "h1", None).unwrap();
    assert_eq!(m.tool_use_id.as_deref(), Some("x9"));
    assert_eq!(m.content, "not json");
}

#[test]
fn several_tool_calls_show_the_whole_list() {
    let calls = r#"[{"id":"a","function":{"name":"one"}},{"id":"b","function":{"name":"two"}}]"#;
    let m = row_message(&row(7, "assistant", None, Some(calls)), "h1", None).unwrap();
    let expected =
        serde_json::to_string_pretty(&serde_json::from_str::<serde_json::Value>(calls).unwrap()).unwrap();
    assert_eq!(m.content, expected);
    assert_eq!(m.tool_name.as_deref(), Some("one"));
    assert_eq!(m.tool_use_id.as_deref(), Some("a"));
}

#[test]
fn unreadable_tool_calls_show_an_empty_list() {
    let m = row_message(&row(8, "assistant", None, Some("{oops")), "h1", None).unwrap();
    assert_eq!(m.message_type, MessageType::ToolCall);
    assert_eq!(m.content, "[]");
    assert_eq!(m.tool_name, None);
    assert_eq!(m.tool_use_id, None);
}

#[test]
fn tool_row_gives_tool_result() {
    let mut r = row(9, "tool", None, None);
    r.tool_name = s("read");
    r.tool_call_id = s("c1");
    let m = row_message(&r, "h1", None).unwrap();
    assert_eq!(m.message_type, MessageType::ToolResult);
    assert_eq!(m.content, "");
    assert_eq!(m.tool_name.as_deref(), Some("read"));
    assert_eq!(m.tool_use_id.as_deref(), Some("c1"));
}

#[test]
fn other_roles_give_nothing() {
    assert!(row_message(&row(10, "system", Some("x"), None), "h1", None).is_none());
}

#[test]
fn rows_give_messages_and_cursor() {
    let rows = vec![
        row(11, "user", Some("a"), None),
        row(12, "system", Some("b"), None),
        row(13, "assistant", Some("c"), None),
    ];
    let ms = messages_from_rows(rows, "h1", None);
    assert_eq!(ms.len(), 2);
    assert_eq!(ms[0].sequence_num, 11);
    assert_eq!(ms[1].sequence_num, 13);
    assert_eq!(next_cursor(10, &ms), 13);
    assert_eq!(next_cursor(10, &vec![]), 10);
}

#[test]
fn known_sessions_decide_once() {
    let mut known = KnownSessions::new(vec!["old".to_string()]);
    assert!(known.contains("old"));
    assert!(!known.contains("new"));
    assert_eq!(known.consider("old", None, 120), NewSessionDecision::AlreadyKnown);
    let young = Some(Age { secs: 60, nanos: 0 });
    assert_eq!(known.consider("new", young, 120), NewSessionDecision::Attach);
    assert!(known.contains("new"));
    assert_eq!(known.consider("new", young, 120), NewSessionDecision::AlreadyKnown);
}

#[test]
fn too_old_sessions_are_remembered_but_not_attached() {
    let mut known = KnownSessions::new(vec![]);
    let old = Some(Age { secs: 7_201, nanos: 0 });
    assert_eq!(known.consider("x", old, 120), NewSessionDecision::TooOld);
    assert_eq!(known.consider("x", Some(Age { secs: 1, nanos: 0 }), 120), NewSessionDecision::AlreadyKnown);
    // No limit, or an unknown age, never makes a session too old.
    assert_eq!(known.consider("y", old, 0), NewSessionDecision::Attach);
    assert_eq!(known.consider("z", None, 120), NewSessionDecision::Attach);
    // Exactly at the limit is still young enough.
    assert_eq!(known.consider("w", Some(Age { secs: 7_200, nanos: 0 }), 120), NewSessionDecision::Attach);
}

#[test]
fn successive_polls_resume_past_the_cursor() {
    let first = messages_from_rows(vec![row(5, "user", Some("a"), None), row(6, "assistant", Some("b"), None)], "h1", None);
    let cursor = next_cursor(4, &first);
    assert_eq!(cursor, 6);
    // Rows already read (id 6 and below) are not asked for again; a round
    // with nothing new keeps the cursor.
    let second = messages_from_rows(vec![row(7, "tool", Some("c"), None)], "h1", None);
    assert!(second.iter().all(|m| first.iter().all(|f| f.sequence_num < m.sequence_num)));
    assert_eq!(next_cursor(cursor, &second), 7);
    assert_eq!(next_cursor(7, &vec![]), 7);
}

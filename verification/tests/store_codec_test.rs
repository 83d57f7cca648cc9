use viztokens::model::{Message, MessageType, Session, SessionStatus, Timestamp};
use viztokens::store::{
    duplicate_check_needed, message_from_row, message_row, message_type_str, missing_sessions,
    parse_message_type, parse_session_status, parse_ts, session_from_row, session_row,
    session_status_str, MessageRow, SessionRow, WatchedFile,
};

const ALL_TYPES: [MessageType; 5] = [
    MessageType::System,
    MessageType::User,
    MessageType::Assistant,
    MessageType::ToolCall,
    MessageType::ToolResult,
];

#[test]
fn message_type_names() {
    assert_eq!(message_type_str(&MessageType::System), "system");
    assert_eq!(message_type_str(&MessageType::User), "user");
    assert_eq!(message_type_str(&MessageType::Assistant), "assistant");
    assert_eq!(message_type_str(&MessageType::ToolCall), "tool_call");
    assert_eq!(message_type_str(&MessageType::ToolResult), "tool_result");
}

#[test]
fn message_type_round_trips_through_its_name() {
    for mt in ALL_TYPES {
        assert_eq!(parse_message_type(message_type_str(&mt)), mt);
    }
}

#[test]
fn unknown_message_type_reads_as_system() {
    assert_eq!(parse_message_type("bogus"), MessageType::System);
    assert_eq!(parse_message_type(""), MessageType::System);
    assert_eq!(parse_message_type("User"), MessageType::System);
}

#[test]
fn session_status_names_and_round_trip() {
    assert_eq!(session_status_str(&SessionStatus::Watching), "watching");
    assert_eq!(session_status_str(&SessionStatus::Ended), "ended");
    assert_eq!(session_status_str(&SessionStatus::Stale), "stale");
    for s in [SessionStatus::Watching, SessionStatus::Ended, SessionStatus::Stale] {
        assert_eq!(parse_session_status(session_status_str(&s)), s);
    }
    assert_eq!(parse_session_status("gone"), SessionStatus::Stale);
}

#[test]
fn parse_ts_reads_rfc3339() {
    assert_eq!(parse_ts("2026-06-23T12:00:00Z"), Timestamp { secs: 1_782_216_000, nanos: 0 });
    assert_eq!(
        parse_ts("2026-06-23T12:00:00.5+02:00"),
        Timestamp { secs: 1_782_216_000 - 7200, nanos: 500_000_000 }
    );
}

#[test]
fn parse_ts_falls_back_to_epoch() {
    assert_eq!(parse_ts("yesterday"), Timestamp { secs: 0, nanos: 0 });
    assert_eq!(parse_ts(""), Timestamp::epoch());
}

fn row() -> MessageRow {
    MessageRow {
        id: 7,
        session_id: "s1".to_string(),
        sequence_num: 42,
        message_type: "tool_call".to_string(),
        timestamp: "2026-06-23T12:00:02Z".to_string(),
        content: "{}".to_string(),
        tool_name: Some("bash".to_string()),
        tool_use_id: Some("tu_1".to_string()),
        anthropic_msg_id: Some("msg_1".to_string()),
        request_id: None,
        input_tokens: Some(10),
        output_tokens: None,
        model: Some("m1".to_string()),
    }
}

#[test]
fn message_from_row_keeps_every_column() {
    let m = message_from_row(row());
    assert_eq!(m.id, Some(7));
    assert_eq!(m.session_id, "s1");
    assert_eq!(m.sequence_num, 42);
    assert_eq!(m.message_type, MessageType::ToolCall);
    assert_eq!(m.timestamp, Timestamp { secs: 1_782_216_002, nanos: 0 });
    assert_eq!(m.content, "{}");
    assert_eq!(m.tool_name.as_deref(), Some("bash"));
    assert_eq!(m.tool_use_id.as_deref(), Some("tu_1"));
    assert_eq!(m.anthropic_msg_id.as_deref(), Some("msg_1"));
    assert_eq!(m.request_id, None);
    assert_eq!(m.input_tokens, Some(10));
    assert_eq!(m.output_tokens, None);
    assert!(!m.tokens_estimated);
    assert_eq!(m.model.as_deref(), Some("m1"));
}

#[test]
fn message_from_row_narrows_tokens_to_32_bits() {
    let mut r = row();
    r.input_tokens = Some(5_000_000_000);
    r.output_tokens = Some(-1);
    let m = message_from_row(r);
    assert_eq!(m.input_tokens, Some(705_032_704));
    assert_eq!(m.output_tokens, Some(u32::MAX));
}

#[test]
fn session_from_row_reads_times_and_status() {
    let s = session_from_row(SessionRow {
        id: "s1".to_string(),
        project_name: "proj".to_string(),
        file_path: "/tmp/s1.jsonl".to_string(),
        first_seen_at: "2026-06-23T12:00:00Z".to_string(),
        last_seen_at: "garbage".to_string(),
        status: "ended".to_string(),
        message_count: 3,
    });
    assert_eq!(s.id, "s1");
    assert_eq!(s.project_name, "proj");
    assert_eq!(s.file_path, "/tmp/s1.jsonl");
    assert_eq!(s.first_seen_at, Timestamp { secs: 1_782_216_000, nanos: 0 });
    assert_eq!(s.last_seen_at, Timestamp::epoch());
    assert_eq!(s.status, SessionStatus::Ended);
    assert_eq!(s.message_count, 3);
}

#[test]
fn duplicates_are_looked_up_only_with_an_id() {
    assert!(!duplicate_check_needed(&None, &None));
    assert!(duplicate_check_needed(&Some("msg_1"), &None));
    assert!(duplicate_check_needed(&None, &Some("req_1")));
    assert!(duplicate_check_needed(&Some("msg_1"), &Some("req_1")));
}

#[test]
fn missing_sessions_lists_gone_files_in_order() {
    let files = vec![
        WatchedFile { id: "a".to_string(), file_exists: false },
        WatchedFile { id: "b".to_string(), file_exists: true },
        WatchedFile { id: "c".to_string(), file_exists: false },
    ];
    assert_eq!(missing_sessions(files), vec!["a".to_string(), "c".to_string()]);
    assert!(missing_sessions(vec![]).is_empty());
}

fn message() -> Message {
    Message {
        id: None,
        session_id: "s9".to_string(),
        sequence_num: 17,
        message_type: MessageType::ToolResult,
        timestamp: Timestamp { secs: 1_782_216_002, nanos: 123_456_789 },
        content: "out".to_string(),
        tool_name: None,
        tool_use_id: Some("tu_9".to_string()),
        anthropic_msg_id: None,
        request_id: Some("req_9".to_string()),
        input_tokens: Some(u32::MAX),
        output_tokens: Some(0),
        tokens_estimated: true,
        model: None,
    }
}

#[test]
fn message_row_holds_the_columns() {
    let row = message_row(&message(), 5).unwrap();
    assert_eq!(row.id, 5);
    assert_eq!(row.session_id, "s9");
    assert_eq!(row.sequence_num, 17);
    assert_eq!(row.message_type, "tool_result");
    assert_eq!(row.timestamp, "2026-06-23T12:00:02.123456789+00:00");
    assert_eq!(row.input_tokens, Some(4_294_967_295));
    assert_eq!(row.output_tokens, Some(0));
    assert_eq!(row.request_id.as_deref(), Some("req_9"));
}

#[test]
fn stored_message_reads_back_as_itself() {
    let m = message();
    let back = message_from_row(message_row(&m, 5).unwrap());
    assert_eq!(back.id, Some(5));
    assert!(!back.tokens_estimated);
    assert_eq!(back.session_id, m.session_id);
    assert_eq!(back.sequence_num, m.sequence_num);
    assert_eq!(back.message_type, m.message_type);
    assert_eq!(back.timestamp, m.timestamp);
    assert_eq!(back.content, m.content);
    assert_eq!(back.tool_name, m.tool_name);
    assert_eq!(back.tool_use_id, m.tool_use_id);
    assert_eq!(back.anthropic_msg_id, m.anthropic_msg_id);
    assert_eq!(back.request_id, m.request_id);
    assert_eq!(back.input_tokens, m.input_tokens);
    assert_eq!(back.output_tokens, m.output_tokens);
    assert_eq!(back.model, m.model);
}

#[test]
fn unwritable_time_gives_no_row() {
    let mut m = message();
    m.timestamp = Timestamp { secs: i64::MAX, nanos: 0 };
    assert!(message_row(&m, 1).is_none());
}

#[test]
fn stored_session_reads_back_as_itself() {
    let s = Session {
        id: "s1".to_string(),
        project_name: "proj".to_string(),
        file_path: "/p/proj/s1.jsonl".to_string(),
        first_seen_at: Timestamp { secs: 1_700_000_000, nanos: 0 },
        last_seen_at: Timestamp { secs: 1_700_000_100, nanos: 5 },
        status: SessionStatus::Watching,
        message_count: 12,
    };
    let row = session_row(&s).unwrap();
    assert_eq!(row.status, "watching");
    assert_eq!(row.first_seen_at, "2023-11-14T22:13:20+00:00");
    let back = session_from_row(row);
    assert_eq!(back.id, s.id);
    assert_eq!(back.project_name, s.project_name);
    assert_eq!(back.file_path, s.file_path);
    assert_eq!(back.first_seen_at, s.first_seen_at);
    assert_eq!(back.last_seen_at, s.last_seen_at);
    assert_eq!(back.status, s.status);
    assert_eq!(back.message_count, s.message_count);
}

#[test]
fn large_sequence_numbers_survive_the_signed_column() {
    let mut m = message();
    m.sequence_num = u64::MAX;
    let row = message_row(&m, 1).unwrap();
    assert_eq!(row.sequence_num, -1);
    assert_eq!(message_from_row(row).sequence_num, u64::MAX);
}

use viztokens::cli::{age_between, age_within, resolve_db_path, select_sessions, sort_history, Age};
use viztokens::model::{Message, MessageType, Timestamp};
use viztokens::watcher::DiscoveredSession;

fn s(v: &str) -> Option<String> {
    Some(v.to_string())
}

#[test]
fn given_database_path_is_used() {
    assert_eq!(resolve_db_path(&s("/tmp/x.db"), &s("/data")), "/tmp/x.db");
}

#[test]
fn empty_or_missing_database_path_goes_under_data_dir() {
    assert_eq!(resolve_db_path(&s(""), &s("/data")), "/data/viztokens/sessions.db");
    assert_eq!(resolve_db_path(&None, &s("/data")), "/data/viztokens/sessions.db");
    assert_eq!(resolve_db_path(&None, &None), "~/.local/share/viztokens/sessions.db");
}

#[test]
fn ages_between_times() {
    let t = |secs: i64, nanos: u32| Timestamp { secs, nanos };
    assert_eq!(age_between(t(100, 0), t(160, 5)), Some(Age { secs: 60, nanos: 5 }));
    assert_eq!(age_between(t(100, 900_000_000), t(101, 100_000_000)), Some(Age { secs: 0, nanos: 200_000_000 }));
    assert_eq!(age_between(t(5, 0), t(5, 0)), Some(Age { secs: 0, nanos: 0 }));
    assert_eq!(age_between(t(161, 0), t(160, 0)), None);
    assert_eq!(age_between(t(-10, 0), t(10, 0)), Some(Age { secs: 20, nanos: 0 }));
}

#[test]
fn age_limit_is_inclusive() {
    assert!(age_within(Some(Age { secs: 7_200, nanos: 0 }), 120));
    assert!(!age_within(Some(Age { secs: 7_200, nanos: 1 }), 120));
    assert!(age_within(Some(Age { secs: 0, nanos: 0 }), 0));
    assert!(!age_within(None, 120));
}

fn session(id: &str, project: &str) -> DiscoveredSession {
    DiscoveredSession {
        session_id: id.to_string(),
        project_name: project.to_string(),
        harness: String::new(),
        file_path: format!("/p/{project}/{id}.jsonl"),
        last_modified: Timestamp { secs: 0, nanos: 0 },
    }
}

fn ids(v: &[DiscoveredSession]) -> Vec<&str> {
    v.iter().map(|d| d.session_id.as_str()).collect()
}

#[test]
fn select_sessions_by_age_and_project() {
    let young = Some(Age { secs: 10, nanos: 0 });
    let old = Some(Age { secs: 100_000, nanos: 0 });
    let found = || {
        vec![
            (session("a", "p1"), young),
            (session("b", "p2"), old),
            (session("c", "p1"), None),
            (session("d", "p2"), young),
        ]
    };
    assert_eq!(ids(&select_sessions(found(), 120, &None)), vec!["a", "d"]);
    assert_eq!(ids(&select_sessions(found(), 0, &None)), vec!["a", "b", "c", "d"]);
    assert_eq!(ids(&select_sessions(found(), 0, &s("p1"))), vec!["a", "c"]);
    assert_eq!(ids(&select_sessions(found(), 120, &s("p2"))), vec!["d"]);
    assert!(select_sessions(found(), 120, &s("nope")).is_empty());
}

fn msg(seq: u64, secs: i64) -> Message {
    Message {
        id: None,
        session_id: "s".to_string(),
        sequence_num: seq,
        message_type: MessageType::User,
        timestamp: Timestamp { secs, nanos: 0 },
        content: String::new(),
        tool_name: None,
        tool_use_id: None,
        anthropic_msg_id: None,
        request_id: None,
        input_tokens: None,
        output_tokens: None,
        tokens_estimated: false,
        model: None,
    }
}

#[test]
fn history_is_sorted_by_time_keeping_ties_in_order() {
    let history = vec![msg(1, 30), msg(2, 10), msg(3, 20), msg(4, 10), msg(5, 30)];
    let sorted = sort_history(history);
    let seqs: Vec<u64> = sorted.iter().map(|m| m.sequence_num).collect();
    assert_eq!(seqs, vec![2, 4, 3, 1, 5]);
}

use viztokens::model::{Message, MessageType, Timestamp};
use viztokens::text::push_decimal;
use viztokens::tui::widgets::message_list::message_title;

fn msg(mt: MessageType, secs: i64, nanos: u32) -> Message {
    Message {
        id: None,
        session_id: "s".to_string(),
        sequence_num: 1,
        message_type: mt,
        timestamp: Timestamp { secs, nanos },
        content: String::new(),
        tool_name: None,
        tool_use_id: None,
        anthropic_msg_id: None,
        request_id: None,
        input_tokens: None,
        output_tokens: None,
        tokens_estimated: false,
        model: None,
    }
}

#[test]
fn decimal_numerals() {
    let mut s = String::from("n=");
    push_decimal(&mut s, 0);
    assert_eq!(s, "n=0");
    let mut s = String::new();
    push_decimal(&mut s, 1_234_567);
    assert_eq!(s, "1234567");
    let mut s = String::new();
    push_decimal(&mut s, u64::MAX);
    assert_eq!(s, u64::MAX.to_string());
}

#[test]
fn bare_title() {
    // 2026-06-23T12:00:04Z
    let m = msg(MessageType::User, 1_782_216_004, 0);
    assert_eq!(message_title(&m, None), " USER  12:00:04 ");
}

#[test]
fn full_title() {
    let mut m = msg(MessageType::ToolCall, 1_782_216_004 + 3_600 * 9 + 61, 5);
    m.tool_name = Some("bash".to_string());
    m.model = Some("gpt-x".to_string());
    m.input_tokens = Some(1200);
    m.output_tokens = Some(7);
    assert_eq!(message_title(&m, Some("proj")), " proj  TOOL CALL  21:01:05   bash  gpt-x  in:1200 out:7");
}

#[test]
fn title_token_variants() {
    let mut m = msg(MessageType::Assistant, 0, 0);
    m.output_tokens = Some(42);
    assert_eq!(message_title(&m, None), " ASSISTANT  00:00:00   out:42");
    m.output_tokens = None;
    m.input_tokens = Some(3);
    assert_eq!(message_title(&m, None), " ASSISTANT  00:00:00   in:3");
}

#[test]
fn title_time_matches_chrono() {
    for (secs, nanos) in [(-1i64, 0u32), (-86_401, 0), (1_700_000_000, 999_999_999), (59, 1_500_000_000)] {
        let expected = chrono::DateTime::from_timestamp(secs, nanos)
            .unwrap()
            .format("%H:%M:%S")
            .to_string();
        let title = message_title(&msg(MessageType::System, secs, nanos), None);
        assert_eq!(title, format!(" SYSTEM  {} ", expected));
    }
}

#[test]
fn estimated_counts_are_marked() {
    let mut m = msg(MessageType::Assistant, 0, 0);
    m.tokens_estimated = true;
    m.output_tokens = Some(42);
    assert_eq!(message_title(&m, None), " ASSISTANT  00:00:00   ~out:42");
    m.input_tokens = Some(5);
    assert_eq!(message_title(&m, None), " ASSISTANT  00:00:00   ~in:5 ~out:42");
    m.output_tokens = None;
    assert_eq!(message_title(&m, None), " ASSISTANT  00:00:00   ~in:5");
}

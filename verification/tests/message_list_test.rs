use viztokens::model::{Message, MessageType, Timestamp};
use viztokens::tui::widgets::message_list::message_height;
use ratatui::{buffer::Buffer, style::Style};

fn message(content: &str) -> Message {
    Message {
        id: None,
        session_id: "session".to_string(),
        sequence_num: 1,
        message_type: MessageType::User,
        timestamp: Timestamp { secs: 0, nanos: 0 },
        content: content.to_string(),
        tool_name: None,
        tool_use_id: None,
        anthropic_msg_id: None,
        request_id: None,
        input_tokens: None,
        output_tokens: None,
        tokens_estimated: false,
        model: None,
    }
}

#[test]
fn message_height_uses_terminal_cell_width_for_wide_characters() {
    // Width 6 leaves four cells inside the borders. Each CJK character
    // occupies two cells, so three characters wrap onto two content lines.
    assert_eq!(message_height(&message("界界界"), 6), 4);
}

#[test]
fn message_height_matches_paragraph_wrapping() {
    assert_eq!(message_height(&message("one two three"), 8), 5);
}

#[test]
fn buffer_diff_clears_wide_emoji_trailing_cell() {
    let previous = Buffer::with_lines(["ab"]);
    let mut next = Buffer::with_lines(["  "]);
    next.set_string(0, 0, "⌨️", Style::new());

    let updates = previous.diff(&next);
    assert!(
        updates
            .iter()
            .any(|(x, y, cell)| (*x, *y, cell.symbol()) == (1, 0, " ")),
        "the hidden trailing cell must be explicitly cleared: {updates:?}"
    );
}

#[test]
fn message_height_has_at_least_one_content_line() {
    assert_eq!(message_height(&message(""), 20), 3);
    assert_eq!(message_height(&message("hi"), 0), 3);
}

use viztokens::model::{Message, MessageType, Timestamp};
use viztokens::tui::events::{handle_key, AppAction, KeyCode, KeyInput};
use viztokens::tui::widgets::message_list::{
    message_height, place_rows, type_color, type_label, Placement, TypeColor,
};
use viztokens::tui::widgets::status_bar::{
    follow_label, footer_tokens, header_status, header_text, HeaderStatus, StatusBarState,
};
use viztokens::tui::App;
use viztokens::watcher::{DiscoveredSession, WatcherEvent};

fn key(c: char) -> KeyInput {
    KeyInput { code: KeyCode::Char(c), ctrl: false }
}

#[test]
fn key_bindings() {
    assert_eq!(handle_key(key('q')), AppAction::Quit);
    assert_eq!(handle_key(KeyInput { code: KeyCode::Char('c'), ctrl: true }), AppAction::Quit);
    assert_eq!(handle_key(key('c')), AppAction::Noop);
    assert_eq!(handle_key(KeyInput { code: KeyCode::Up, ctrl: false }), AppAction::ScrollUp);
    assert_eq!(handle_key(key('k')), AppAction::ScrollUp);
    assert_eq!(handle_key(KeyInput { code: KeyCode::Down, ctrl: false }), AppAction::ScrollDown);
    assert_eq!(handle_key(key('j')), AppAction::ScrollDown);
    assert_eq!(handle_key(KeyInput { code: KeyCode::PageUp, ctrl: false }), AppAction::PageUp);
    assert_eq!(handle_key(KeyInput { code: KeyCode::PageDown, ctrl: false }), AppAction::PageDown);
    assert_eq!(handle_key(KeyInput { code: KeyCode::Home, ctrl: false }), AppAction::ScrollTop);
    assert_eq!(handle_key(KeyInput { code: KeyCode::End, ctrl: false }), AppAction::ScrollBottom);
    assert_eq!(handle_key(key('e')), AppAction::ScrollBottom);
    assert_eq!(handle_key(key('f')), AppAction::CycleFilter);
    assert_eq!(handle_key(key('F')), AppAction::ClearFilter);
    assert_eq!(handle_key(key('1')), AppAction::ToggleType(MessageType::User));
    assert_eq!(handle_key(key('2')), AppAction::ToggleType(MessageType::Assistant));
    assert_eq!(handle_key(key('3')), AppAction::ToggleType(MessageType::ToolCall));
    assert_eq!(handle_key(key('4')), AppAction::ToggleType(MessageType::System));
    assert_eq!(handle_key(key('5')), AppAction::Noop);
    assert_eq!(handle_key(KeyInput { code: KeyCode::Other, ctrl: true }), AppAction::Noop);
}

fn msg(session: &str, mt: MessageType, content: &str, tokens: (Option<u32>, Option<u32>)) -> Message {
    Message {
        id: None,
        session_id: session.to_string(),
        sequence_num: 1,
        message_type: mt,
        timestamp: Timestamp { secs: 0, nanos: 0 },
        content: content.to_string(),
        tool_name: None,
        tool_use_id: None,
        anthropic_msg_id: None,
        request_id: None,
        input_tokens: tokens.0,
        output_tokens: tokens.1,
        tokens_estimated: false,
        model: None,
    }
}

fn session(id: &str, project: &str) -> DiscoveredSession {
    DiscoveredSession {
        session_id: id.to_string(),
        project_name: project.to_string(),
        harness: String::new(),
        file_path: String::new(),
        last_modified: Timestamp { secs: 0, nanos: 0 },
    }
}

#[test]
fn new_app_counts_sessions_and_follows() {
    let app = App::new(vec![session("s1", "p1"), session("s2", "p2")], vec![]);
    assert_eq!(app.session_count, 2);
    assert_eq!(app.watching_count, 2);
    assert!(app.follow_mode);
    assert_eq!(app.project_of("s2"), Some("p2"));
    assert_eq!(app.project_of("nope"), None);
}

#[test]
fn scrolling_actions() {
    let mut app = App::new(vec![], vec![]);
    app.apply_action(AppAction::ScrollDown, 10);
    assert_eq!(app.scroll_offset, 1);
    assert!(!app.follow_mode);
    app.apply_action(AppAction::PageDown, 10);
    assert_eq!(app.scroll_offset, 11);
    app.apply_action(AppAction::PageUp, 20);
    assert_eq!(app.scroll_offset, 0);
    app.apply_action(AppAction::ScrollUp, 10);
    assert_eq!(app.scroll_offset, 0);
    app.scroll_offset = usize::MAX;
    app.apply_action(AppAction::ScrollDown, 10);
    assert_eq!(app.scroll_offset, usize::MAX);
    app.apply_action(AppAction::ScrollTop, 10);
    assert_eq!(app.scroll_offset, 0);
    app.total_lines = 30;
    app.apply_action(AppAction::ScrollBottom, 10);
    assert_eq!(app.scroll_offset, 29);
    assert!(app.follow_mode);
}

#[test]
fn filter_changes_return_to_follow_mode() {
    let mut app = App::new(vec![], vec![]);
    app.apply_action(AppAction::ScrollUp, 1);
    assert!(!app.follow_mode);
    app.apply_action(AppAction::CycleFilter, 1);
    assert!(app.follow_mode);
    assert_eq!(app.filter.label(), "USER");

    app.apply_action(AppAction::ScrollUp, 1);
    app.apply_action(AppAction::ToggleType(MessageType::ToolCall), 1);
    assert!(app.follow_mode);
    assert!(app.filter.allows(&MessageType::ToolResult));

    app.apply_action(AppAction::ScrollUp, 1);
    app.apply_action(AppAction::ClearFilter, 1);
    assert!(app.follow_mode);
    assert!(!app.filter.is_active());
}

#[test]
fn quit_and_noop_change_nothing() {
    let mut app = App::new(vec![], vec![]);
    app.apply_action(AppAction::ScrollDown, 1);
    app.apply_action(AppAction::Noop, 1);
    app.apply_action(AppAction::Quit, 1);
    assert_eq!(app.scroll_offset, 1);
    assert!(!app.follow_mode);
}

#[test]
fn events_update_the_app() {
    let mut app = App::new(vec![session("s1", "p1")], vec![]);
    app.total_lines = 12;
    app.handle_event(WatcherEvent::Message(msg("s1", MessageType::User, "hi", (None, None))));
    assert_eq!(app.messages.len(), 1);
    assert_eq!(app.scroll_offset, 11);

    app.handle_event(WatcherEvent::ParseError("bad".to_string()));
    assert_eq!(app.parse_errors, 1);

    app.handle_event(WatcherEvent::SessionEnded("s1".to_string()));
    assert_eq!(app.watching_count, 0);
    app.handle_event(WatcherEvent::SessionEnded("s1".to_string()));
    assert_eq!(app.watching_count, 0);

    app.handle_event(WatcherEvent::NewSession(session("s2", "p2")));
    assert_eq!(app.session_count, 2);
    assert_eq!(app.watching_count, 1);
    assert_eq!(app.project_of("s2"), Some("p2"));
}

#[test]
fn messages_do_not_move_a_scrolled_view() {
    let mut app = App::new(vec![], vec![]);
    app.apply_action(AppAction::ScrollDown, 1);
    app.total_lines = 50;
    app.handle_event(WatcherEvent::Message(msg("s1", MessageType::User, "hi", (None, None))));
    assert_eq!(app.scroll_offset, 1);
}

#[test]
fn token_updates_replace_session_totals() {
    let mut app = App::new(vec![], vec![msg("s1", MessageType::User, "a", (Some(5), Some(1)))]);
    app.handle_event(WatcherEvent::TokensUpdate { session_id: "h".to_string(), input_tokens: 100, output_tokens: 7 });
    assert_eq!(app.token_totals(), Some((105, 8)));
    app.handle_event(WatcherEvent::TokensUpdate { session_id: "h".to_string(), input_tokens: 200, output_tokens: 9 });
    assert_eq!(app.token_totals(), Some((205, 10)));
    assert_eq!(app.session_tokens.len(), 1);
}

#[test]
fn token_totals_count_only_shown_messages() {
    let mut app = App::new(
        vec![],
        vec![
            msg("s", MessageType::User, "a", (Some(5), None)),
            msg("s", MessageType::Assistant, "b", (Some(7), Some(3))),
        ],
    );
    assert_eq!(app.token_totals(), Some((12, 3)));
    app.filter.toggle(MessageType::Assistant);
    assert_eq!(app.token_totals(), Some((7, 3)));
    let state = app.status_bar_state().unwrap();
    assert_eq!(state.total_input_tokens, 7);
    assert_eq!(state.filter_label, "ASSISTANT");
}

#[test]
fn token_totals_overflow_gives_none() {
    let mut app = App::new(vec![], vec![]);
    app.handle_event(WatcherEvent::TokensUpdate { session_id: "a".to_string(), input_tokens: u64::MAX, output_tokens: 0 });
    app.handle_event(WatcherEvent::TokensUpdate { session_id: "b".to_string(), input_tokens: 1, output_tokens: 0 });
    assert_eq!(app.token_totals(), None);
    assert!(app.status_bar_state().is_none());
}

#[test]
fn refresh_layout_measures_shown_messages_and_follows() {
    let mut app = App::new(
        vec![],
        vec![
            msg("s", MessageType::User, "one two three", (None, None)),
            msg("s", MessageType::System, "x", (None, None)),
            msg("s", MessageType::Assistant, "", (None, None)),
        ],
    );
    assert!(app.refresh_layout(8, 4));
    // Heights at width 8: 5, 3 and 3 lines.
    assert_eq!(app.total_lines, 11);
    assert_eq!(app.scroll_offset, 7);
    let rows = app.visible_rows();
    assert_eq!(rows.len(), 3);
    assert_eq!(rows[0].1, 5);
    assert_eq!(rows[1].1, 3);

    app.filter.toggle(MessageType::System);
    assert!(app.refresh_layout(8, 20));
    assert_eq!(app.total_lines, 3);
    assert_eq!(app.scroll_offset, 0);
    let rows = app.visible_rows();
    assert_eq!(rows.len(), 1);
    assert_eq!(rows[0].0.content, "x");
}

#[test]
fn refresh_layout_keeps_a_scrolled_position() {
    let mut app = App::new(vec![], vec![msg("s", MessageType::User, "x", (None, None))]);
    app.apply_action(AppAction::ScrollDown, 1);
    assert!(app.refresh_layout(10, 1));
    assert_eq!(app.total_lines, 3);
    assert_eq!(app.scroll_offset, 1);
}

#[test]
fn message_heights_have_borders_and_at_least_one_line() {
    assert_eq!(message_height(&msg("s", MessageType::User, "", (None, None)), 10), 3);
    assert_eq!(message_height(&msg("s", MessageType::User, "abc", (None, None)), 0), 3);
    assert_eq!(message_height(&msg("s", MessageType::User, "a\nb\nc", (None, None)), 20), 5);
}

#[test]
fn labels_and_colours() {
    assert_eq!(type_label(&MessageType::System), "SYSTEM");
    assert_eq!(type_label(&MessageType::User), "USER");
    assert_eq!(type_label(&MessageType::Assistant), "ASSISTANT");
    assert_eq!(type_label(&MessageType::ToolCall), "TOOL CALL");
    assert_eq!(type_label(&MessageType::ToolResult), "TOOL RESULT");
    assert_eq!(type_color(&MessageType::System), TypeColor::DarkGray);
    assert_eq!(type_color(&MessageType::User), TypeColor::Blue);
    assert_eq!(type_color(&MessageType::Assistant), TypeColor::Green);
    assert_eq!(type_color(&MessageType::ToolCall), TypeColor::Yellow);
    assert_eq!(type_color(&MessageType::ToolResult), TypeColor::Cyan);
}

#[test]
fn header_states() {
    assert_eq!(header_status(1, 3), HeaderStatus::Watching);
    assert_eq!(header_status(0, 0), HeaderStatus::Waiting);
    assert_eq!(header_status(0, 2), HeaderStatus::Ended);
    assert_eq!(HeaderStatus::Watching.text(), ("●", "WATCHING"));
    assert_eq!(HeaderStatus::Waiting.text(), ("○", "WAITING"));
    assert_eq!(HeaderStatus::Ended.text(), ("□", "ENDED"));
    assert_eq!(follow_label(true), "[follow]");
    assert_eq!(follow_label(false), "[scroll]");
}

fn p(index: usize, y: u16, height: u16, skip_lines: u16) -> Placement {
    Placement { index, y, height, skip_lines }
}

#[test]
fn rows_stack_from_the_top() {
    let (ps, end) = place_rows(&vec![3, 4, 5], 1, 20, 10, 0).unwrap();
    assert_eq!(ps, vec![p(0, 1, 3, 0), p(1, 4, 4, 0), p(2, 8, 5, 0)]);
    assert_eq!(end, 13);
}

#[test]
fn rows_scrolled_off_are_skipped_or_cut() {
    // Scrolled by 4: the first message is gone, the second lost one line.
    let (ps, end) = place_rows(&vec![3, 4, 5], 1, 20, 10, 4).unwrap();
    assert_eq!(ps, vec![p(1, 1, 3, 1), p(2, 4, 5, 0)]);
    assert_eq!(end, 9);
}

#[test]
fn rows_past_the_bottom_are_cut() {
    let (ps, end) = place_rows(&vec![3, 4, 5], 0, 5, 10, 0).unwrap();
    assert_eq!(ps, vec![p(0, 0, 3, 0), p(1, 3, 2, 0)]);
    assert_eq!(end, 5);
}

#[test]
fn empty_area_places_nothing() {
    let (ps, end) = place_rows(&vec![3], 2, 0, 10, 0).unwrap();
    assert!(ps.is_empty());
    assert_eq!(end, 2);
    let (ps, _) = place_rows(&vec![3], 2, 5, 0, 0).unwrap();
    assert!(ps.is_empty());
    assert!(place_rows(&vec![3], u16::MAX, 2, 10, 0).is_none());
}

#[test]
fn token_updates_keep_other_sessions() {
    let mut app = App::new(vec![], vec![]);
    app.handle_event(WatcherEvent::TokensUpdate { session_id: "a".to_string(), input_tokens: 1, output_tokens: 2 });
    app.handle_event(WatcherEvent::TokensUpdate { session_id: "b".to_string(), input_tokens: 10, output_tokens: 20 });
    app.handle_event(WatcherEvent::TokensUpdate { session_id: "a".to_string(), input_tokens: 3, output_tokens: 4 });
    assert_eq!(app.session_tokens.len(), 2);
    assert_eq!(app.session_tokens[0].session_id, "a");
    assert_eq!((app.session_tokens[0].input_tokens, app.session_tokens[0].output_tokens), (3, 4));
    assert_eq!(app.session_tokens[1].session_id, "b");
    assert_eq!(app.token_totals(), Some((13, 24)));
    assert_eq!(app.session_count, 0);
    assert!(app.messages.is_empty());
}

#[test]
fn header_and_footer_texts() {
    let state = StatusBarState {
        watching_count: 2,
        session_count: 3,
        filter_label: "TOOLS",
        parse_errors: 4,
        follow_mode: false,
        total_input_tokens: 1500,
        total_output_tokens: 0,
    };
    let h = header_text(&state);
    assert_eq!(h.status, "● WATCHING");
    assert_eq!(h.sessions, "  2/3 sessions  ");
    assert_eq!(h.follow, "[scroll]");
    assert_eq!(h.filter, "  filter: TOOLS");
    assert_eq!(h.errors.as_deref(), Some("  ⚠ 4"));
    assert_eq!(footer_tokens(&state), "  in:1500 out:0");
    let quiet = StatusBarState { watching_count: 0, parse_errors: 0, ..state };
    let h = header_text(&quiet);
    assert_eq!(h.status, "□ ENDED");
    assert_eq!(h.errors, None);
}

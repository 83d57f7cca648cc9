//! Keys and the actions they ask for.

use vstd::prelude::*;
use crate::model::MessageType;

verus! {

/// A key, as far as the interface tells keys apart.
#[derive(Clone, Copy, Debug, PartialEq, Eq, Structural)]
pub enum KeyCode {
    Char(char),
    Up,
    Down,
    PageUp,
    PageDown,
    Home,
    End,
    Other,
}

/// A key press: the key and whether Control was held.
#[derive(Clone, Copy, Debug, PartialEq, Eq, Structural)]
pub struct KeyInput {
    pub code: KeyCode,
    pub ctrl: bool,
}

/// What a key press asks of the interface.
#[derive(Clone, Copy, Debug, PartialEq, Eq, Structural)]
pub enum AppAction {
    Quit,
    ScrollUp,
    ScrollDown,
    PageUp,
    PageDown,
    ScrollTop,
    ScrollBottom,
    CycleFilter,
    ClearFilter,
    ToggleType(MessageType),
    Noop,
}

/// The key bindings.
pub open spec fn spec_handle_key(key: KeyInput) -> AppAction {
    match key.code {
        KeyCode::Char('q') => AppAction::Quit,
        KeyCode::Char('c') if key.ctrl => AppAction::Quit,
        KeyCode::Up | KeyCode::Char('k') => AppAction::ScrollUp,
        KeyCode::Down | KeyCode::Char('j') => AppAction::ScrollDown,
        KeyCode::PageUp => AppAction::PageUp,
        KeyCode::PageDown => AppAction::PageDown,
        KeyCode::Home => AppAction::ScrollTop,
        KeyCode::End | KeyCode::Char('e') => AppAction::ScrollBottom,
        KeyCode::Char('f') => AppAction::CycleFilter,
        KeyCode::Char('F') => AppAction::ClearFilter,
        KeyCode::Char('1') => AppAction::ToggleType(MessageType::User),
        KeyCode::Char('2') => AppAction::ToggleType(MessageType::Assistant),
        KeyCode::Char('3') => AppAction::ToggleType(MessageType::ToolCall),
        KeyCode::Char('4') => AppAction::ToggleType(MessageType::System),
        _ => AppAction::Noop,
    }
}

pub fn handle_key(key: KeyInput) -> (r: AppAction)
    ensures
        r == spec_handle_key(key),
{
    match key.code {
        KeyCode::Char('q') => AppAction::Quit,
        KeyCode::Char('c') if key.ctrl => AppAction::Quit,
        KeyCode::Up | KeyCode::Char('k') => AppAction::ScrollUp,
        KeyCode::Down | KeyCode::Char('j') => AppAction::ScrollDown,
        KeyCode::PageUp => AppAction::PageUp,
        KeyCode::PageDown => AppAction::PageDown,
        KeyCode::Home => AppAction::ScrollTop,
        KeyCode::End | KeyCode::Char('e') => AppAction::ScrollBottom,
        KeyCode::Char('f') => AppAction::CycleFilter,
        KeyCode::Char('F') => AppAction::ClearFilter,
        KeyCode::Char('1') => AppAction::ToggleType(MessageType::User),
        KeyCode::Char('2') => AppAction::ToggleType(MessageType::Assistant),
        KeyCode::Char('3') => AppAction::ToggleType(MessageType::ToolCall),
        KeyCode::Char('4') => AppAction::ToggleType(MessageType::System),
        _ => AppAction::Noop,
    }
}

} // verus!

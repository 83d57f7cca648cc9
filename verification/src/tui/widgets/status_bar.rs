//! The header and footer of the interface.

use vstd::prelude::*;
use crate::text::{decimal, push_decimal};

verus! {

/// The state shown in the header: watching while a session is live, waiting
/// before any session exists, ended once every session has ended.
#[derive(Clone, Copy, Debug, PartialEq, Eq, Structural)]
pub enum HeaderStatus {
    Watching,
    Waiting,
    Ended,
}

pub open spec fn spec_header_status(watching_count: usize, session_count: usize) -> HeaderStatus {
    if watching_count > 0 {
        HeaderStatus::Watching
    } else if session_count == 0 {
        HeaderStatus::Waiting
    } else {
        HeaderStatus::Ended
    }
}

pub fn header_status(watching_count: usize, session_count: usize) -> (r: HeaderStatus)
    ensures
        r == spec_header_status(watching_count, session_count),
{
    if watching_count > 0 {
        HeaderStatus::Watching
    } else if session_count == 0 {
        HeaderStatus::Waiting
    } else {
        HeaderStatus::Ended
    }
}

impl HeaderStatus {
    /// The icon and the word shown for the state.
    pub fn text(&self) -> (r: (&'static str, &'static str))
        ensures
            r.0@ == match self {
                HeaderStatus::Watching => "●"@,
                HeaderStatus::Waiting => "○"@,
                HeaderStatus::Ended => "□"@,
            },
            r.1@ == match self {
                HeaderStatus::Watching => "WATCHING"@,
                HeaderStatus::Waiting => "WAITING"@,
                HeaderStatus::Ended => "ENDED"@,
            },
    {
        match self {
            HeaderStatus::Watching => ("●", "WATCHING"),
            HeaderStatus::Waiting => ("○", "WAITING"),
            HeaderStatus::Ended => ("□", "ENDED"),
        }
    }
}

/// The status bar's marker of the scrolling mode.
pub fn follow_label(follow_mode: bool) -> (r: &'static str)
    ensures
        r@ == if follow_mode {
            "[follow]"@
        } else {
            "[scroll]"@
        },
{
    if follow_mode {
        "[follow]"
    } else {
        "[scroll]"
    }
}

/// What the header and the footer show.
pub struct StatusBarState<'a> {
    pub watching_count: usize,
    pub session_count: usize,
    pub filter_label: &'a str,
    pub parse_errors: u32,
    pub follow_mode: bool,
    pub total_input_tokens: u64,
    pub total_output_tokens: u64,
}

/// The icon and word of a header state, as one text.
pub open spec fn spec_status_text(st: HeaderStatus) -> Seq<char> {
    match st {
        HeaderStatus::Watching => "●"@ + " "@ + "WATCHING"@,
        HeaderStatus::Waiting => "○"@ + " "@ + "WAITING"@,
        HeaderStatus::Ended => "□"@ + " "@ + "ENDED"@,
    }
}

/// The watched and known session counts of the header.
pub open spec fn spec_sessions_text(watching_count: usize, session_count: usize) -> Seq<char> {
    "  "@ + decimal(watching_count as nat) + "/"@ + decimal(session_count as nat) + " sessions  "@
}

/// The texts of the header, left to right; each is drawn in its own style.
pub struct HeaderText {
    /// The state's icon and word.
    pub status: String,
    /// The watched and known session counts.
    pub sessions: String,
    /// The scrolling mode.
    pub follow: &'static str,
    /// The filter's label.
    pub filter: String,
    /// The number of lines that could not be read, when there are any.
    pub errors: Option<String>,
}

/// The texts of the header for a status-bar state.
pub fn header_text(state: &StatusBarState) -> (r: HeaderText)
    ensures
        r.status@ == spec_status_text(spec_header_status(state.watching_count, state.session_count)),
        r.sessions@ == spec_sessions_text(state.watching_count, state.session_count),
        r.follow@ == (if state.follow_mode {
            "[follow]"@
        } else {
            "[scroll]"@
        }),
        r.filter@ == "  filter: "@ + state.filter_label@,
        r.errors.deep_view() == (if state.parse_errors > 0 {
            Some("  ⚠ "@ + decimal(state.parse_errors as nat))
        } else {
            None
        }),
{
    let st = header_status(state.watching_count, state.session_count);
    let (icon, word) = st.text();
    let mut status = String::new();
    status.append(icon);
    status.append(" ");
    status.append(word);
    proof {
        reveal_strlit("●");
        reveal_strlit("○");
        reveal_strlit("□");
        reveal_strlit("WATCHING");
        reveal_strlit("WAITING");
        reveal_strlit("ENDED");
    }
    assert(status@ =~= spec_status_text(st));
    let mut sessions = String::new();
    sessions.append("  ");
    push_decimal(&mut sessions, state.watching_count as u64);
    sessions.append("/");
    push_decimal(&mut sessions, state.session_count as u64);
    sessions.append(" sessions  ");
    assert(sessions@ =~= spec_sessions_text(state.watching_count, state.session_count));
    let mut filter = String::new();
    filter.append("  filter: ");
    filter.append(state.filter_label);
    let errors = if state.parse_errors > 0 {
        let mut e = String::new();
        e.append("  ⚠ ");
        push_decimal(&mut e, state.parse_errors as u64);
        Some(e)
    } else {
        None
    };
    HeaderText { status, sessions, follow: follow_label(state.follow_mode), filter, errors }
}

/// The token totals shown in the footer.
pub open spec fn spec_footer_tokens(input: u64, output: u64) -> Seq<char> {
    "  in:"@ + decimal(input as nat) + " out:"@ + decimal(output as nat)
}

/// The footer's token totals for a status-bar state.
pub fn footer_tokens(state: &StatusBarState) -> (r: String)
    ensures
        r@ == spec_footer_tokens(state.total_input_tokens, state.total_output_tokens),
{
    let mut out = String::new();
    out.append("  in:");
    push_decimal(&mut out, state.total_input_tokens);
    out.append(" out:");
    push_decimal(&mut out, state.total_output_tokens);
    out
}

} // verus!

//! What the session watchers report.

use vstd::prelude::*;
use crate::model::{Message, Timestamp};
use crate::ordering::Timed;

verus! {

/// A session found on disk or in a database, ready to be watched.
#[derive(Clone, Debug)]
pub struct DiscoveredSession {
    pub session_id: String,
    pub project_name: String,
    /// The tool that produced the session, e.g. `hermes`.
    pub harness: String,
    pub file_path: String,
    pub last_modified: Timestamp,
}

/// The mathematical content of a discovered session.
pub struct DiscoveredView {
    pub session_id: Seq<char>,
    pub project_name: Seq<char>,
    pub harness: Seq<char>,
    pub file_path: Seq<char>,
    pub last_modified: Timestamp,
}

impl View for DiscoveredSession {
    type V = DiscoveredView;

    open spec fn view(&self) -> DiscoveredView {
        DiscoveredView {
            session_id: self.session_id@,
            project_name: self.project_name@,
            harness: self.harness@,
            file_path: self.file_path@,
            last_modified: self.last_modified,
        }
    }
}

impl Timed for DiscoveredSession {
    /// Sessions are ordered by when they were last modified.
    open spec fn spec_time(&self) -> Timestamp {
        self.last_modified
    }

    fn time(&self) -> (r: Timestamp) {
        self.last_modified
    }
}

/// The views of a sequence of discovered sessions.
pub open spec fn discovered_views(s: Seq<DiscoveredSession>) -> Seq<DiscoveredView> {
    s.map_values(|d: DiscoveredSession| d@)
}

/// An event sent by a watcher to the user interface.
pub enum WatcherEvent {
    Message(Message),
    ParseError(String),
    SessionEnded(String),
    NewSession(DiscoveredSession),
    /// Session-level token totals, from sources without per-message counts.
    TokensUpdate { session_id: String, input_tokens: u64, output_tokens: u64 },
}

} // verus!

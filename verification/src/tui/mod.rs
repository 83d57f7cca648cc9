//! The state of the terminal interface and how keys and watcher events
//! change it.

pub mod events;
pub mod widgets;

use vstd::prelude::*;
use crate::model::filter::{toggled, MessageFilter, TypeSet};
use crate::model::{Message, MessageType};
use crate::text::str_eq;
use crate::watcher::{DiscoveredSession, WatcherEvent};
use self::events::AppAction;
use self::widgets::message_list::{message_height, spec_message_height};
use self::widgets::status_bar::StatusBarState;

verus! {

broadcast use vstd::seq_lib::group_seq_properties;

/// The filter presets that `f` steps through: everything, user messages,
/// assistant messages, tool calls with their results, system messages, and
/// back to everything.
pub open spec fn spec_cycle(s: Set<MessageType>) -> Set<MessageType> {
    if s.is_empty() {
        set![MessageType::User]
    } else if s == set![MessageType::User] {
        set![MessageType::Assistant]
    } else if s == set![MessageType::Assistant] {
        set![MessageType::ToolCall, MessageType::ToolResult]
    } else if s.contains(MessageType::ToolCall) && s.contains(MessageType::ToolResult) {
        set![MessageType::System]
    } else {
        Set::empty()
    }
}

/// The allowed kinds after toggling the kind a key names: the tool-call key
/// toggles tool calls and tool results together.
pub open spec fn spec_toggle_type(s: Set<MessageType>, t: MessageType) -> Set<MessageType> {
    if t == MessageType::ToolCall {
        toggled(toggled(s, MessageType::ToolCall), MessageType::ToolResult)
    } else {
        toggled(s, t)
    }
}

/// Whether a filter lets a message through.
pub open spec fn shown_by(f: MessageFilter) -> spec_fn(Message) -> bool {
    |m: Message| f.spec_allows(m.message_type)
}

/// Per-session token totals reported by a watcher.
pub struct SessionTokens {
    pub session_id: String,
    pub input_tokens: u64,
    pub output_tokens: u64,
}

/// The interface's state.
pub struct App {
    pub messages: Vec<Message>,
    /// Session ids and the projects they belong to; a later entry for the
    /// same session wins.
    pub session_projects: Vec<(String, String)>,
    pub session_count: usize,
    pub watching_count: usize,
    pub parse_errors: u32,
    pub scroll_offset: usize,
    pub follow_mode: bool,
    pub total_lines: usize,
    pub filter: MessageFilter,
    pub session_tokens: Vec<SessionTokens>,
    pub layout: LayoutCache,
}

/// The heights of the messages, as computed for one terminal width.
pub struct LayoutCache {
    width: u16,
    heights: Vec<u16>,
}

impl LayoutCache {
    /// The width the heights were computed for.
    pub closed spec fn width(&self) -> u16 {
        self.width
    }

    /// The heights, one per message from the first.
    pub closed spec fn heights(&self) -> Seq<u16> {
        self.heights@
    }

    /// Brings the heights up to date with `messages` at `width`: a change of
    /// width drops the heights known so far; the missing ones are computed.
    pub fn update(&mut self, messages: &Vec<Message>, width: u16)
        requires
            old(self).heights().len() <= messages@.len(),
            forall|i: int|
                0 <= i < old(self).heights().len() ==> #[trigger] old(self).heights()[i]
                    == spec_message_height(messages@[i].content@, old(self).width()),
        ensures
            final(self).width() == width,
            final(self).heights().len() == messages@.len(),
            forall|i: int|
                0 <= i < messages@.len() ==> #[trigger] final(self).heights()[i]
                    == spec_message_height(messages@[i].content@, width),
    {
        if self.width != width {
            self.width = width;
            self.heights.clear();
        }
        let mut i: usize = self.heights.len();
        while i < messages.len()
            invariant
                self.width == width,
                i == self.heights@.len(),
                i <= messages@.len(),
                forall|j: int|
                    0 <= j < i ==> #[trigger] self.heights@[j] == spec_message_height(
                        messages@[j].content@,
                        width,
                    ),
            decreases messages@.len() - i,
        {
            let h = message_height(&messages[i], width);
            self.heights.push(h);
            i = i + 1;
        }
    }

    /// An empty cache.
    pub fn new() -> (r: LayoutCache)
        ensures
            r.heights().len() == 0,
            r.width() == 0,
    {
        LayoutCache { width: 0, heights: Vec::new() }
    }
}

/// The lines taken by the shown messages among the first `n` whose heights
/// are known.
pub open spec fn shown_lines(ms: Seq<Message>, hs: Seq<u16>, f: MessageFilter, n: int) -> int
    decreases n,
{
    if n <= 0 {
        0
    } else {
        shown_lines(ms, hs, f, n - 1) + if f.spec_allows(ms[n - 1].message_type) {
            hs[n - 1] as int
        } else {
            0
        }
    }
}

/// The sum of the input (`.0`) and output (`.1`) tokens of the shown
/// messages among the first `n`.
pub open spec fn shown_tokens(ms: Seq<Message>, f: MessageFilter, n: int) -> (int, int)
    decreases n,
{
    if n <= 0 {
        (0, 0)
    } else {
        let prev = shown_tokens(ms, f, n - 1);
        let m = ms[n - 1];
        if f.spec_allows(m.message_type) {
            (
                prev.0 + match m.input_tokens {
                    Some(v) => v as int,
                    None => 0,
                },
                prev.1 + match m.output_tokens {
                    Some(v) => v as int,
                    None => 0,
                },
            )
        } else {
            prev
        }
    }
}

/// The project of a session: the last entry for it in `pairs`.
pub open spec fn spec_project_of(pairs: Seq<(String, String)>, session_id: Seq<char>) -> Option<
    Seq<char>,
>
    decreases pairs.len(),
{
    if pairs.len() == 0 {
        None
    } else if pairs.last().0@ == session_id {
        Some(pairs.last().1@)
    } else {
        spec_project_of(pairs.drop_last(), session_id)
    }
}

/// `b` has the same messages, sessions, counters, layout and total as `a`:
/// only the filter and the scrolling state may differ.
pub open spec fn same_content(a: App, b: App) -> bool {
    &&& b.messages == a.messages
    &&& b.session_projects == a.session_projects
    &&& b.session_count == a.session_count
    &&& b.watching_count == a.watching_count
    &&& b.parse_errors == a.parse_errors
    &&& b.session_tokens == a.session_tokens
    &&& b.layout == a.layout
    &&& b.total_lines == a.total_lines
}

impl App {
    /// The cached heights agree with the messages at the cached width.
    pub open spec fn layout_ok(&self) -> bool {
        &&& self.layout.heights().len() <= self.messages@.len()
        &&& forall|i: int|
            0 <= i < self.layout.heights().len() ==> #[trigger] self.layout.heights()[i]
                == spec_message_height(self.messages@[i].content@, self.layout.width())
    }

    /// The heights of the messages, once `refresh_layout` has run.
    pub open spec fn heights(&self) -> Seq<u16> {
        self.layout.heights()
    }

    /// A new interface over the given sessions and the messages already
    /// stored for them. Every session counts as watched; the filter is off
    /// and the view follows new messages.
    pub fn new(sessions: Vec<DiscoveredSession>, history: Vec<Message>) -> (r: App)
        ensures
            r.messages@ == history@,
            r.session_projects@.len() == sessions@.len(),
            forall|i: int|
                0 <= i < sessions@.len() ==> (#[trigger] r.session_projects@[i]).0@
                    == sessions@[i].session_id@ && r.session_projects@[i].1@
                    == sessions@[i].project_name@,
            r.session_count == sessions@.len(),
            r.watching_count == sessions@.len(),
            r.parse_errors == 0,
            r.scroll_offset == 0,
            r.follow_mode,
            r.total_lines == 0,
            r.filter.allowed_types@ == Set::<MessageType>::empty(),
            r.session_tokens@.len() == 0,
            r.layout_ok(),
            r.heights().len() == 0,
    {
        let mut session_projects: Vec<(String, String)> = Vec::new();
        let mut i: usize = 0;
        while i < sessions.len()
            invariant
                i <= sessions@.len(),
                session_projects@.len() == i,
                forall|j: int|
                    0 <= j < i ==> (#[trigger] session_projects@[j]).0@
                        == sessions@[j].session_id@ && session_projects@[j].1@
                        == sessions@[j].project_name@,
            decreases sessions@.len() - i,
        {
            session_projects.push((sessions[i].session_id.clone(), sessions[i].project_name.clone()));
            i = i + 1;
        }
        let session_count = sessions.len();
        App {
            messages: history,
            session_projects,
            session_count,
            watching_count: session_count,
            parse_errors: 0,
            scroll_offset: 0,
            follow_mode: true,
            total_lines: 0,
            filter: MessageFilter::new(),
            session_tokens: Vec::new(),
            layout: LayoutCache::new(),
        }
    }

    /// The messages the filter lets through, in order.
    pub fn visible_messages(&self) -> (r: Vec<&Message>)
        ensures
            r@.len() == self.messages@.filter(shown_by(self.filter)).len(),
            forall|i: int|
                0 <= i < r@.len() ==> *#[trigger] r@[i] == self.messages@.filter(
                    shown_by(self.filter),
                )[i],
    {
        let ghost f = shown_by(self.filter);
        let mut out: Vec<&Message> = Vec::new();
        let mut i: usize = 0;
        while i < self.messages.len()
            invariant
                i <= self.messages@.len(),
                f == shown_by(self.filter),
                out@.len() == self.messages@.take(i as int).filter(f).len(),
                forall|j: int|
                    0 <= j < out@.len() ==> *#[trigger] out@[j] == self.messages@.take(
                        i as int,
                    ).filter(f)[j],
            decreases self.messages@.len() - i,
        {
            let m = &self.messages[i];
            proof {
                assert(self.messages@.take(i as int + 1) =~= self.messages@.take(i as int).push(
                    self.messages@[i as int],
                ));
                self.messages@.take(i as int).lemma_filter_push(self.messages@[i as int], f);
            }
            if self.filter.allows(&m.message_type) {
                out.push(m);
            }
            i = i + 1;
        }
        assert(self.messages@.take(self.messages@.len() as int) =~= self.messages@);
        out
    }

    /// Steps the filter to the next preset.
    pub fn cycle_filter(&mut self)
        ensures
            same_content(*old(self), *final(self)),
            final(self).filter.allowed_types@ == spec_cycle(old(self).filter.allowed_types@),
            final(self).messages@ == old(self).messages@,
            final(self).total_lines == old(self).total_lines,
            final(self).scroll_offset == old(self).scroll_offset,
            final(self).follow_mode == old(self).follow_mode,
            final(self).layout_ok() == old(self).layout_ok(),
            final(self).heights() == old(self).heights(),
    {
        let current = self.filter.allowed_types;
        let user_only = current.contains(&MessageType::User) && !current.contains(
            &MessageType::System,
        ) && !current.contains(&MessageType::Assistant) && !current.contains(&MessageType::ToolCall)
            && !current.contains(&MessageType::ToolResult);
        let assistant_only = current.contains(&MessageType::Assistant) && !current.contains(
            &MessageType::System,
        ) && !current.contains(&MessageType::User) && !current.contains(&MessageType::ToolCall)
            && !current.contains(&MessageType::ToolResult);
        proof {
            let s = current@;
            assert(user_only <==> s =~= set![MessageType::User]) by {
                if s =~= set![MessageType::User] {
                    assert(s.contains(MessageType::User));
                }
                if user_only {
                    assert forall|t: MessageType| s.contains(t) <==> set![MessageType::User].contains(t) by {
                        match t {
                            MessageType::User => {},
                            _ => {},
                        }
                    }
                }
            }
            assert(assistant_only <==> s =~= set![MessageType::Assistant]) by {
                if s =~= set![MessageType::Assistant] {
                    assert(s.contains(MessageType::Assistant));
                }
                if assistant_only {
                    assert forall|t: MessageType| s.contains(t) <==> set![MessageType::Assistant].contains(t) by {
                        match t {
                            MessageType::Assistant => {},
                            _ => {},
                        }
                    }
                }
            }
        }
        if current.is_empty() {
            self.filter.allowed_types = TypeSet::from_slice(&[MessageType::User]);
        } else if user_only {
            self.filter.allowed_types = TypeSet::from_slice(&[MessageType::Assistant]);
        } else if assistant_only {
            self.filter.allowed_types = TypeSet::from_slice(
                &[MessageType::ToolCall, MessageType::ToolResult],
            );
        } else if current.contains(&MessageType::ToolCall) && current.contains(
            &MessageType::ToolResult,
        ) {
            self.filter.allowed_types = TypeSet::from_slice(&[MessageType::System]);
        } else {
            self.filter.clear();
        }
        assert(seq![MessageType::User].to_set() =~= set![MessageType::User]);
        assert(seq![MessageType::Assistant].to_set() =~= set![MessageType::Assistant]);
        assert(seq![MessageType::System].to_set() =~= set![MessageType::System]);
        assert(seq![MessageType::ToolCall, MessageType::ToolResult].to_set() =~= set![
            MessageType::ToolCall,
            MessageType::ToolResult,
        ]);
    }

    pub fn scroll_up(&mut self, n: usize)
        ensures
            same_content(*old(self), *final(self)),
            final(self).scroll_offset == if old(self).scroll_offset >= n {
                (old(self).scroll_offset - n) as usize
            } else {
                0
            },
            !final(self).follow_mode,
            final(self).messages@ == old(self).messages@,
            final(self).filter == old(self).filter,
            final(self).total_lines == old(self).total_lines,
            final(self).layout_ok() == old(self).layout_ok(),
            final(self).heights() == old(self).heights(),
    {
        self.scroll_offset = self.scroll_offset.saturating_sub(n);
        self.follow_mode = false;
    }

    pub fn scroll_down(&mut self, n: usize)
        ensures
            same_content(*old(self), *final(self)),
            final(self).scroll_offset == if old(self).scroll_offset + n > usize::MAX {
                usize::MAX
            } else {
                (old(self).scroll_offset + n) as usize
            },
            !final(self).follow_mode,
            final(self).messages@ == old(self).messages@,
            final(self).filter == old(self).filter,
            final(self).total_lines == old(self).total_lines,
            final(self).layout_ok() == old(self).layout_ok(),
            final(self).heights() == old(self).heights(),
    {
        self.scroll_offset = self.scroll_offset.saturating_add(n);
        self.follow_mode = false;
    }

    pub fn scroll_to_top(&mut self)
        ensures
            same_content(*old(self), *final(self)),
            final(self).scroll_offset == 0,
            !final(self).follow_mode,
            final(self).messages@ == old(self).messages@,
            final(self).filter == old(self).filter,
            final(self).total_lines == old(self).total_lines,
            final(self).layout_ok() == old(self).layout_ok(),
            final(self).heights() == old(self).heights(),
    {
        self.scroll_offset = 0;
        self.follow_mode = false;
    }

    /// Jumps to the last line and follows new messages again.
    pub fn scroll_to_bottom(&mut self)
        ensures
            same_content(*old(self), *final(self)),
            final(self).scroll_offset == if old(self).total_lines >= 1 {
                (old(self).total_lines - 1) as usize
            } else {
                0
            },
            final(self).follow_mode,
            final(self).messages@ == old(self).messages@,
            final(self).filter == old(self).filter,
            final(self).total_lines == old(self).total_lines,
            final(self).layout_ok() == old(self).layout_ok(),
            final(self).heights() == old(self).heights(),
    {
        self.scroll_offset = self.total_lines.saturating_sub(1);
        self.follow_mode = true;
    }
}


/// The rows of the list: each shown message among the first `n` with its
/// height.
pub open spec fn shown_rows(ms: Seq<Message>, hs: Seq<u16>, f: MessageFilter, n: int) -> Seq<
    (Message, u16),
>
    decreases n,
{
    if n <= 0 {
        Seq::empty()
    } else {
        let prev = shown_rows(ms, hs, f, n - 1);
        if f.spec_allows(ms[n - 1].message_type) {
            prev.push((ms[n - 1], hs[n - 1]))
        } else {
            prev
        }
    }
}

/// The sum of the session-level input (`.0`) and output (`.1`) tokens.
pub open spec fn session_token_sum(ts: Seq<SessionTokens>) -> (int, int)
    decreases ts.len(),
{
    if ts.len() == 0 {
        (0, 0)
    } else {
        let prev = session_token_sum(ts.drop_last());
        (prev.0 + ts.last().input_tokens, prev.1 + ts.last().output_tokens)
    }
}

/// Whether an event can be taken in without a counter overflowing.
pub open spec fn event_fits(app: App, evt: WatcherEvent) -> bool {
    match evt {
        WatcherEvent::ParseError(_) => app.parse_errors < u32::MAX,
        _ => true,
    }
}

/// One less, stopping at zero.
pub open spec fn sat_dec(n: usize) -> usize {
    if n >= 1 {
        (n - 1) as usize
    } else {
        0
    }
}

/// One more, stopping at `usize::MAX`.
pub open spec fn sat_inc(n: usize) -> usize {
    if n == usize::MAX {
        usize::MAX
    } else {
        (n + 1) as usize
    }
}

/// The session totals as (session, input, output) triples.
pub open spec fn token_views(ts: Seq<SessionTokens>) -> Seq<(Seq<char>, u64, u64)> {
    ts.map_values(|t: SessionTokens| (t.session_id@, t.input_tokens, t.output_tokens))
}

/// The position of the first totals of the session `session_id`.
pub open spec fn token_slot(ts: Seq<SessionTokens>, session_id: Seq<char>) -> Option<int>
    decreases ts.len(),
{
    if ts.len() == 0 {
        None
    } else {
        match token_slot(ts.drop_last(), session_id) {
            Some(k) => Some(k),
            None => if ts.last().session_id@ == session_id {
                Some(ts.len() - 1)
            } else {
                None
            },
        }
    }
}

proof fn lemma_token_slot_within(ts: Seq<SessionTokens>, session_id: Seq<char>)
    ensures
        token_slot(ts, session_id) matches Some(k) ==> 0 <= k < ts.len() && ts[k].session_id@
            == session_id,
    decreases ts.len(),
{
    if ts.len() > 0 {
        lemma_token_slot_within(ts.drop_last(), session_id);
    }
}

/// The number of messages whose heights are known and which are shown.
pub open spec fn known_rows(app: App) -> int {
    if app.heights().len() < app.messages@.len() {
        app.heights().len() as int
    } else {
        app.messages@.len() as int
    }
}

impl App {
    /// Carries out a key's action; `page_size` is the number of lines a page
    /// scrolls. Any change of the filter puts the view back in follow mode,
    /// so that a shorter filtered list is not left scrolled past its end.
    pub fn apply_action(&mut self, action: AppAction, page_size: usize)
        ensures
            same_content(*old(self), *final(self)),
            final(self).messages@ == old(self).messages@,
            final(self).layout_ok() == old(self).layout_ok(),
            final(self).heights() == old(self).heights(),
            final(self).total_lines == old(self).total_lines,
            match action {
                AppAction::ScrollUp => final(self).scroll_offset == (if old(self).scroll_offset
                    >= 1 {
                    (old(self).scroll_offset - 1) as usize
                } else {
                    0
                }) && !final(self).follow_mode && final(self).filter == old(self).filter,
                AppAction::ScrollDown => final(self).scroll_offset == (if old(self).scroll_offset
                    + 1 > usize::MAX {
                    usize::MAX
                } else {
                    (old(self).scroll_offset + 1) as usize
                }) && !final(self).follow_mode && final(self).filter == old(self).filter,
                AppAction::PageUp => final(self).scroll_offset == (if old(self).scroll_offset
                    >= page_size {
                    (old(self).scroll_offset - page_size) as usize
                } else {
                    0
                }) && !final(self).follow_mode && final(self).filter == old(self).filter,
                AppAction::PageDown => final(self).scroll_offset == (if old(self).scroll_offset
                    + page_size > usize::MAX {
                    usize::MAX
                } else {
                    (old(self).scroll_offset + page_size) as usize
                }) && !final(self).follow_mode && final(self).filter == old(self).filter,
                AppAction::ScrollTop => final(self).scroll_offset == 0 && !final(self).follow_mode
                    && final(self).filter == old(self).filter,
                AppAction::ScrollBottom => final(self).scroll_offset == (if old(self).total_lines
                    >= 1 {
                    (old(self).total_lines - 1) as usize
                } else {
                    0
                }) && final(self).follow_mode && final(self).filter == old(self).filter,
                AppAction::CycleFilter => final(self).filter.allowed_types@ == spec_cycle(
                    old(self).filter.allowed_types@,
                ) && final(self).scroll_offset == old(self).scroll_offset && final(self).follow_mode,
                AppAction::ClearFilter => final(self).filter.allowed_types@ == Set::<
                    MessageType,
                >::empty() && final(self).scroll_offset == old(self).scroll_offset
                    && final(self).follow_mode,
                AppAction::ToggleType(t) => final(self).filter.allowed_types@ == spec_toggle_type(
                    old(self).filter.allowed_types@,
                    t,
                ) && final(self).scroll_offset == old(self).scroll_offset && final(self).follow_mode,
                AppAction::Quit | AppAction::Noop => final(self).filter == old(self).filter
                    && final(self).scroll_offset == old(self).scroll_offset && final(self).follow_mode
                    == old(self).follow_mode,
            },
    {
        match action {
            AppAction::ScrollUp => self.scroll_up(1),
            AppAction::ScrollDown => self.scroll_down(1),
            AppAction::PageUp => self.scroll_up(page_size),
            AppAction::PageDown => self.scroll_down(page_size),
            AppAction::ScrollTop => self.scroll_to_top(),
            AppAction::ScrollBottom => self.scroll_to_bottom(),
            AppAction::CycleFilter => {
                self.cycle_filter();
                self.follow_mode = true;
            },
            AppAction::ClearFilter => {
                self.filter.clear();
                self.follow_mode = true;
            },
            AppAction::ToggleType(t) => {
                if t == MessageType::ToolCall {
                    self.filter.toggle(MessageType::ToolCall);
                    self.filter.toggle(MessageType::ToolResult);
                } else {
                    self.filter.toggle(t);
                }
                self.follow_mode = true;
            },
            AppAction::Quit | AppAction::Noop => {},
        }
    }

    /// Takes in one event from a watcher: a message is appended (and shown
    /// at once while following), a parse error is counted, an ended session
    /// stops counting as watched, a new session is registered, and
    /// session-level token totals replace the ones known for that session.
    pub fn handle_event(&mut self, evt: WatcherEvent)
        requires
            event_fits(*old(self), evt),
        ensures
            old(self).layout_ok() ==> final(self).layout_ok(),
            final(self).heights() == old(self).heights(),
            final(self).filter == old(self).filter,
            final(self).total_lines == old(self).total_lines,
            final(self).follow_mode == old(self).follow_mode,
            final(self).messages@ == (match evt {
                WatcherEvent::Message(m) => old(self).messages@.push(m),
                _ => old(self).messages@,
            }),
            final(self).scroll_offset == (match evt {
                WatcherEvent::Message(_) => if old(self).follow_mode {
                    sat_dec(old(self).total_lines)
                } else {
                    old(self).scroll_offset
                },
                _ => old(self).scroll_offset,
            }),
            final(self).parse_errors == (match evt {
                WatcherEvent::ParseError(_) => (old(self).parse_errors + 1) as u32,
                _ => old(self).parse_errors,
            }),
            final(self).watching_count == (match evt {
                WatcherEvent::SessionEnded(_) => sat_dec(old(self).watching_count),
                WatcherEvent::NewSession(_) => sat_inc(old(self).watching_count),
                _ => old(self).watching_count,
            }),
            final(self).session_count == (match evt {
                WatcherEvent::NewSession(_) => sat_inc(old(self).session_count),
                _ => old(self).session_count,
            }),
            final(self).session_projects@ == (match evt {
                WatcherEvent::NewSession(d) => old(self).session_projects@.push(
                    (d.session_id, d.project_name),
                ),
                _ => old(self).session_projects@,
            }),
            token_views(final(self).session_tokens@) == (match evt {
                WatcherEvent::TokensUpdate { session_id, input_tokens, output_tokens } => {
                    let entry = (session_id@, input_tokens, output_tokens);
                    match token_slot(old(self).session_tokens@, session_id@) {
                        Some(k) => token_views(old(self).session_tokens@).update(k, entry),
                        None => token_views(old(self).session_tokens@).push(entry),
                    }
                },
                _ => token_views(old(self).session_tokens@),
            }),
    {
        match evt {
            WatcherEvent::Message(m) => {
                let ghost before = self.messages@;
                self.messages.push(m);
                assert(forall|i: int| 0 <= i < before.len() ==> self.messages@[i] == before[i]);
                if self.follow_mode {
                    self.scroll_offset = self.total_lines.saturating_sub(1);
                }
            },
            WatcherEvent::ParseError(_) => {
                self.parse_errors = self.parse_errors + 1;
            },
            WatcherEvent::SessionEnded(_) => {
                self.watching_count = self.watching_count.saturating_sub(1);
            },
            WatcherEvent::NewSession(d) => {
                self.session_projects.push((d.session_id, d.project_name));
                self.session_count = self.session_count.saturating_add(1);
                self.watching_count = self.watching_count.saturating_add(1);
            },
            WatcherEvent::TokensUpdate { session_id, input_tokens, output_tokens } => {
                let ghost ts = self.session_tokens@;
                let mut i: usize = 0;
                let mut at: Option<usize> = None;
                while i < self.session_tokens.len()
                    invariant
                        i <= self.session_tokens@.len(),
                        self.session_tokens@ == ts,
                        match at {
                            Some(k) => token_slot(ts.take(i as int), session_id@) == Some(k as int),
                            None => token_slot(ts.take(i as int), session_id@) is None,
                        },
                    decreases self.session_tokens@.len() - i,
                {
                    assert(ts.take(i as int + 1).drop_last() =~= ts.take(i as int));
                    if at.is_none() && str_eq(
                        self.session_tokens[i].session_id.as_str(),
                        session_id.as_str(),
                    ) {
                        at = Some(i);
                    }
                    proof {
                        lemma_token_slot_within(ts.take(i as int + 1), session_id@);
                    }
                    i = i + 1;
                }
                assert(ts.take(ts.len() as int) =~= ts);
                proof {
                    lemma_token_slot_within(ts, session_id@);
                }
                match at {
                    Some(k) => {
                        let sid = self.session_tokens[k].session_id.clone();
                        self.session_tokens.set(
                            k,
                            SessionTokens { session_id: sid, input_tokens, output_tokens },
                        );
                        assert(token_views(self.session_tokens@) =~= token_views(ts).update(
                            k as int,
                            (session_id@, input_tokens, output_tokens),
                        ));
                    },
                    None => {
                        self.session_tokens.push(
                            SessionTokens { session_id, input_tokens, output_tokens },
                        );
                        assert(token_views(self.session_tokens@) =~= token_views(ts).push(
                            (session_id@, input_tokens, output_tokens),
                        ));
                    },
                }
            },
        }
    }

    /// Recomputes what depends on the terminal's size: the heights of the
    /// messages at `width`, the total lines of the shown messages, and, while
    /// following, the scroll position that keeps the last `content_height`
    /// lines in view. Returns `false`, with the total and the position left
    /// as they were, when the total does not fit in a `usize`.
    pub fn refresh_layout(&mut self, width: u16, content_height: u16) -> (ok: bool)
        requires
            old(self).layout_ok(),
        ensures
            final(self).layout_ok(),
            final(self).layout.width() == width,
            final(self).heights().len() == final(self).messages@.len(),
            final(self).messages@ == old(self).messages@,
            final(self).filter == old(self).filter,
            final(self).follow_mode == old(self).follow_mode,
            ok == (shown_lines(
                final(self).messages@,
                final(self).heights(),
                final(self).filter,
                final(self).messages@.len() as int,
            ) <= usize::MAX),
            ok ==> final(self).total_lines == shown_lines(
                final(self).messages@,
                final(self).heights(),
                final(self).filter,
                final(self).messages@.len() as int,
            ),
            ok ==> final(self).scroll_offset == if old(self).follow_mode {
                if final(self).total_lines >= content_height {
                    (final(self).total_lines - content_height) as usize
                } else {
                    0
                }
            } else {
                old(self).scroll_offset
            },
            !ok ==> final(self).total_lines == old(self).total_lines && final(self).scroll_offset
                == old(self).scroll_offset,
    {
        self.layout.update(&self.messages, width);
        let n = self.messages.len();
        let mut total: usize = 0;
        let mut overflow = false;
        let mut i: usize = 0;
        while i < n
            invariant
                n == self.messages@.len(),
                self.layout.heights().len() == n,
                i <= n,
                !overflow ==> total == shown_lines(self.messages@, self.layout.heights(), self.filter, i as int),
                overflow ==> shown_lines(self.messages@, self.layout.heights(), self.filter, n as int) > usize::MAX,
            decreases n - i,
        {
            if !overflow {
                if self.filter.allows(&self.messages[i].message_type) {
                    let h = self.layout.height_at(i);
                    match total.checked_add(h as usize) {
                        Some(t) => total = t,
                        None => {
                            proof {
                                lemma_shown_lines_grow(self.messages@, self.layout.heights(), self.filter, i as int + 1, n as int);
                            }
                            overflow = true;
                        },
                    }
                }
            }
            i = i + 1;
        }
        if overflow {
            return false;
        }
        self.total_lines = total;
        if self.follow_mode {
            self.scroll_offset = self.total_lines.saturating_sub(content_height as usize);
        }
        true
    }

    /// The rows of the message list: each shown message with its height.
    pub fn visible_rows(&self) -> (r: Vec<(&Message, u16)>)
        ensures
            r@.len() == shown_rows(self.messages@, self.heights(), self.filter, known_rows(*self)).len(),
            forall|i: int|
                0 <= i < r@.len() ==> *(#[trigger] r@[i]).0 == shown_rows(
                    self.messages@,
                    self.heights(),
                    self.filter,
                    known_rows(*self),
                )[i].0 && r@[i].1 == shown_rows(
                    self.messages@,
                    self.heights(),
                    self.filter,
                    known_rows(*self),
                )[i].1,
    {
        let n = if self.layout.len() < self.messages.len() {
            self.layout.len()
        } else {
            self.messages.len()
        };
        let mut out: Vec<(&Message, u16)> = Vec::new();
        let mut i: usize = 0;
        while i < n
            invariant
                n == known_rows(*self),
                i <= n,
                out@.len() == shown_rows(self.messages@, self.heights(), self.filter, i as int).len(),
                forall|j: int|
                    0 <= j < out@.len() ==> *(#[trigger] out@[j]).0 == shown_rows(
                        self.messages@,
                        self.heights(),
                        self.filter,
                        i as int,
                    )[j].0 && out@[j].1 == shown_rows(
                        self.messages@,
                        self.heights(),
                        self.filter,
                        i as int,
                    )[j].1,
            decreases n - i,
        {
            if self.filter.allows(&self.messages[i].message_type) {
                out.push((&self.messages[i], self.layout.height_at(i)));
            }
            i = i + 1;
        }
        out
    }

    /// The input and output tokens shown in the footer: those of the shown
    /// messages plus the session-level totals reported by watchers; `None`
    /// when a sum does not fit in a `u64`.
    pub fn token_totals(&self) -> (r: Option<(u64, u64)>)
        ensures
            ({
                let m = shown_tokens(self.messages@, self.filter, self.messages@.len() as int);
                let s = session_token_sum(self.session_tokens@);
                let fits = m.0 + s.0 <= u64::MAX && m.1 + s.1 <= u64::MAX;
                &&& fits <==> r is Some
                &&& fits ==> r == Some(((m.0 + s.0) as u64, (m.1 + s.1) as u64))
            }),
    {
        let mut input: u64 = 0;
        let mut output: u64 = 0;
        let mut ok = true;
        let mut i: usize = 0;
        while i < self.messages.len()
            invariant
                i <= self.messages@.len(),
                ok ==> (input as int, output as int) == shown_tokens(self.messages@, self.filter, i as int),
                !ok ==> ({
                    let m = shown_tokens(self.messages@, self.filter, self.messages@.len() as int);
                    let s = session_token_sum(self.session_tokens@);
                    !(m.0 + s.0 <= u64::MAX && m.1 + s.1 <= u64::MAX)
                }),
            decreases self.messages@.len() - i,
        {
            if ok {
                let m = &self.messages[i];
                if self.filter.allows(&m.message_type) {
                    let a = match m.input_tokens {
                        Some(v) => v as u64,
                        None => 0,
                    };
                    let b = match m.output_tokens {
                        Some(v) => v as u64,
                        None => 0,
                    };
                    match (input.checked_add(a), output.checked_add(b)) {
                        (Some(x), Some(y)) => {
                            input = x;
                            output = y;
                        },
                        _ => {
                            proof {
                                lemma_shown_tokens_grow(self.messages@, self.filter, i as int + 1, self.messages@.len() as int);
                                lemma_session_sum_nonneg(self.session_tokens@);
                            }
                            ok = false;
                        },
                    }
                }
            }
            i = i + 1;
        }
        if !ok {
            return None;
        }
        let mut j: usize = 0;
        while j < self.session_tokens.len()
            invariant
                j <= self.session_tokens@.len(),
                (input as int, output as int) == (
                    shown_tokens(self.messages@, self.filter, self.messages@.len() as int).0 + session_token_sum(self.session_tokens@.take(j as int)).0,
                    shown_tokens(self.messages@, self.filter, self.messages@.len() as int).1 + session_token_sum(self.session_tokens@.take(j as int)).1,
                ),
            decreases self.session_tokens@.len() - j,
        {
            assert(self.session_tokens@.take(j as int + 1).drop_last() =~= self.session_tokens@.take(j as int));
            let t = &self.session_tokens[j];
            match (input.checked_add(t.input_tokens), output.checked_add(t.output_tokens)) {
                (Some(x), Some(y)) => {
                    input = x;
                    output = y;
                },
                _ => {
                    proof {
                        lemma_session_sum_grow(self.session_tokens@, j as int + 1);
                        assert(self.session_tokens@.take(self.session_tokens@.len() as int) =~= self.session_tokens@);
                    }
                    return None;
                },
            }
            j = j + 1;
        }
        assert(self.session_tokens@.take(self.session_tokens@.len() as int) =~= self.session_tokens@);
        Some((input, output))
    }

    /// The project of a session, if the session is known.
    pub fn project_of(&self, session_id: &str) -> (r: Option<&str>)
        ensures
            match r {
                Some(p) => spec_project_of(self.session_projects@, session_id@) == Some(p@),
                None => spec_project_of(self.session_projects@, session_id@) is None,
            },
    {
        let mut i: usize = self.session_projects.len();
        assert(self.session_projects@.take(i as int) =~= self.session_projects@);
        while i > 0
            invariant
                i <= self.session_projects@.len(),
                spec_project_of(self.session_projects@, session_id@) == spec_project_of(
                    self.session_projects@.take(i as int),
                    session_id@,
                ),
            decreases i,
        {
            let ghost pre = self.session_projects@.take(i as int);
            assert(pre.drop_last() =~= self.session_projects@.take(i as int - 1));
            assert(pre.last() == self.session_projects@[i as int - 1]);
            if str_eq(self.session_projects[i - 1].0.as_str(), session_id) {
                return Some(self.session_projects[i - 1].1.as_str());
            }
            i = i - 1;
        }
        None
    }

    /// What the header and footer show; `None` when the token totals do not
    /// fit in a `u64`.
    pub fn status_bar_state(&self) -> (r: Option<StatusBarState<'static>>)
        ensures
            match r {
                Some(st) => {
                    &&& self.token_totals_spec() == Some((st.total_input_tokens, st.total_output_tokens))
                    &&& st.watching_count == self.watching_count
                    &&& st.session_count == self.session_count
                    &&& st.parse_errors == self.parse_errors
                    &&& st.follow_mode == self.follow_mode
                    &&& st.filter_label@ == crate::model::filter::spec_label(self.filter.allowed_types@)
                },
                None => self.token_totals_spec() is None,
            },
    {
        match self.token_totals() {
            Some((i, o)) => Some(
                StatusBarState {
                    watching_count: self.watching_count,
                    session_count: self.session_count,
                    filter_label: self.filter.label(),
                    parse_errors: self.parse_errors,
                    follow_mode: self.follow_mode,
                    total_input_tokens: i,
                    total_output_tokens: o,
                },
            ),
            None => None,
        }
    }

    /// The footer's totals as `token_totals` computes them.
    pub open spec fn token_totals_spec(&self) -> Option<(u64, u64)> {
        let m = shown_tokens(self.messages@, self.filter, self.messages@.len() as int);
        let s = session_token_sum(self.session_tokens@);
        if m.0 + s.0 <= u64::MAX && m.1 + s.1 <= u64::MAX {
            Some(((m.0 + s.0) as u64, (m.1 + s.1) as u64))
        } else {
            None
        }
    }
}

impl LayoutCache {
    /// The number of heights known.
    pub fn len(&self) -> (r: usize)
        ensures
            r == self.heights().len(),
    {
        self.heights.len()
    }

    /// The height of message `i`.
    pub fn height_at(&self, i: usize) -> (r: u16)
        requires
            i < self.heights().len(),
        ensures
            r == self.heights()[i as int],
    {
        self.heights[i]
    }
}

/// Later messages only add lines.
proof fn lemma_shown_lines_grow(ms: Seq<Message>, hs: Seq<u16>, f: MessageFilter, a: int, b: int)
    requires
        0 <= a <= b,
    ensures
        shown_lines(ms, hs, f, a) <= shown_lines(ms, hs, f, b),
    decreases b - a,
{
    if a < b {
        lemma_shown_lines_grow(ms, hs, f, a, b - 1);
    }
}

/// Later messages only add tokens.
proof fn lemma_shown_tokens_grow(ms: Seq<Message>, f: MessageFilter, a: int, b: int)
    requires
        0 <= a <= b,
    ensures
        shown_tokens(ms, f, a).0 <= shown_tokens(ms, f, b).0,
        shown_tokens(ms, f, a).1 <= shown_tokens(ms, f, b).1,
    decreases b - a,
{
    if a < b {
        lemma_shown_tokens_grow(ms, f, a, b - 1);
    }
}

/// Session totals are never negative.
proof fn lemma_session_sum_nonneg(ts: Seq<SessionTokens>)
    ensures
        session_token_sum(ts).0 >= 0,
        session_token_sum(ts).1 >= 0,
    decreases ts.len(),
{
    if ts.len() > 0 {
        lemma_session_sum_nonneg(ts.drop_last());
    }
}

/// A prefix's session totals are no more than the whole's.
proof fn lemma_session_sum_grow(ts: Seq<SessionTokens>, n: int)
    requires
        0 <= n <= ts.len(),
    ensures
        session_token_sum(ts.take(n)).0 <= session_token_sum(ts).0,
        session_token_sum(ts.take(n)).1 <= session_token_sum(ts).1,
    decreases ts.len() - n,
{
    if n < ts.len() {
        lemma_session_sum_grow(ts, n + 1);
        assert(ts.take(n + 1).drop_last() =~= ts.take(n));
    } else {
        assert(ts.take(n) =~= ts);
    }
}

/// `f` steps through the presets in order and comes back to showing
/// everything after five presses.
pub proof fn lemma_cycle_presets()
    ensures
        spec_cycle(Set::empty()) == set![MessageType::User],
        spec_cycle(set![MessageType::User]) == set![MessageType::Assistant],
        spec_cycle(set![MessageType::Assistant]) == set![MessageType::ToolCall, MessageType::ToolResult],
        spec_cycle(set![MessageType::ToolCall, MessageType::ToolResult]) == set![MessageType::System],
        spec_cycle(set![MessageType::System]) == Set::<MessageType>::empty(),
{
    assert(!set![MessageType::User].is_empty()) by {
        assert(set![MessageType::User].contains(MessageType::User));
    }
    assert(!set![MessageType::Assistant].is_empty()) by {
        assert(set![MessageType::Assistant].contains(MessageType::Assistant));
    }
    assert(set![MessageType::Assistant] != set![MessageType::User]) by {
        assert(!set![MessageType::User].contains(MessageType::Assistant));
    }
    let tools = set![MessageType::ToolCall, MessageType::ToolResult];
    assert(!tools.is_empty()) by {
        assert(tools.contains(MessageType::ToolCall));
    }
    assert(tools != set![MessageType::User]) by {
        assert(!set![MessageType::User].contains(MessageType::ToolCall));
    }
    assert(tools != set![MessageType::Assistant]) by {
        assert(!set![MessageType::Assistant].contains(MessageType::ToolCall));
    }
    let sys = set![MessageType::System];
    assert(!sys.is_empty()) by {
        assert(sys.contains(MessageType::System));
    }
    assert(sys != set![MessageType::User]) by {
        assert(!set![MessageType::User].contains(MessageType::System));
    }
    assert(sys != set![MessageType::Assistant]) by {
        assert(!set![MessageType::Assistant].contains(MessageType::System));
    }
}

/// Pressing a kind's key twice gives back the filter one started with.
pub proof fn lemma_toggle_type_twice(s: Set<MessageType>, t: MessageType)
    ensures
        spec_toggle_type(spec_toggle_type(s, t), t) == s,
{
    assert(spec_toggle_type(spec_toggle_type(s, t), t) =~= s);
}

/// With the filter off, every message is shown, in order.
pub proof fn lemma_off_shows_all(ms: Seq<Message>, f: MessageFilter)
    requires
        !f.spec_is_active(),
    ensures
        ms.filter(shown_by(f)) == ms,
    decreases ms.len(),
{
    reveal(Seq::filter);
    if ms.len() > 0 {
        lemma_off_shows_all(ms.drop_last(), f);
        assert(ms.drop_last().push(ms.last()) =~= ms);
    } else {
        assert(ms.filter(shown_by(f)) =~= ms);
    }
}

/// A shown message is one the filter allows, and every allowed message is
/// shown.
pub proof fn lemma_shown_are_allowed(ms: Seq<Message>, f: MessageFilter)
    ensures
        forall|i: int| 0 <= i < ms.filter(shown_by(f)).len() ==> f.spec_allows(#[trigger] ms.filter(shown_by(f))[i].message_type),
        forall|i: int| 0 <= i < ms.len() && f.spec_allows(ms[i].message_type) ==> #[trigger] ms.filter(shown_by(f)).contains(ms[i]),
{
    broadcast use vstd::seq_lib::group_filter_ensures;
    assert forall|i: int| 0 <= i < ms.filter(shown_by(f)).len() implies f.spec_allows(#[trigger] ms.filter(shown_by(f))[i].message_type) by {
        ms.lemma_filter_pred(shown_by(f), i);
    }
    assert forall|i: int| 0 <= i < ms.len() && f.spec_allows(ms[i].message_type) implies #[trigger] ms.filter(shown_by(f)).contains(ms[i]) by {
        ms.lemma_filter_contains(shown_by(f), i);
    }
}

/// A kind key other than the tool-call key flips exactly its own kind: the
/// kind is allowed afterwards when it was not before, and every other kind
/// keeps its place. The tool-call key flips tool calls and tool results
/// together and nothing else.
pub proof fn lemma_toggle_type_flips(s: Set<MessageType>, t: MessageType, k: MessageType)
    ensures
        t != MessageType::ToolCall ==> (spec_toggle_type(s, t).contains(k) <==> (if k == t {
            !s.contains(k)
        } else {
            s.contains(k)
        })),
        t == MessageType::ToolCall ==> (spec_toggle_type(s, t).contains(k) <==> (if k
            == MessageType::ToolCall || k == MessageType::ToolResult {
            !s.contains(k)
        } else {
            s.contains(k)
        })),
{
}

/// What one message adds to the footer: its input and output tokens
/// (nothing for a count it lacks).
pub open spec fn message_tokens(m: Message) -> (int, int) {
    (
        match m.input_tokens {
            Some(v) => v as int,
            None => 0,
        },
        match m.output_tokens {
            Some(v) => v as int,
            None => 0,
        },
    )
}

proof fn lemma_shown_tokens_prefix(a: Seq<Message>, b: Seq<Message>, f: MessageFilter, n: int)
    requires
        0 <= n <= a.len(),
        n <= b.len(),
        forall|i: int| 0 <= i < n ==> a[i] == b[i],
    ensures
        shown_tokens(a, f, n) == shown_tokens(b, f, n),
    decreases n,
{
    if n > 0 {
        lemma_shown_tokens_prefix(a, b, f, n - 1);
    }
}

/// The token totals of the shown messages add up over a list: the totals of
/// two lists one after the other are the sums of their totals; a single
/// message the filter lets through, whatever its kind, counts its tokens,
/// and one it holds back counts nothing.
pub proof fn lemma_shown_tokens_sum(a: Seq<Message>, b: Seq<Message>, f: MessageFilter, m: Message)
    ensures
        shown_tokens(a + b, f, (a + b).len() as int) == (
            shown_tokens(a, f, a.len() as int).0 + shown_tokens(b, f, b.len() as int).0,
            shown_tokens(a, f, a.len() as int).1 + shown_tokens(b, f, b.len() as int).1,
        ),
        f.spec_allows(m.message_type) ==> shown_tokens(seq![m], f, 1) == message_tokens(m),
        !f.spec_allows(m.message_type) ==> shown_tokens(seq![m], f, 1) == (0int, 0int),
    decreases b.len(),
{
    assert(shown_tokens(seq![m], f, 0) == (0int, 0int));
    if b.len() == 0 {
        assert(a + b =~= a);
    } else {
        let b1 = b.drop_last();
        lemma_shown_tokens_sum(a, b1, f, m);
        assert((a + b).drop_last() =~= a + b1);
        lemma_shown_tokens_prefix(a + b, a + b1, f, (a + b1).len() as int);
        lemma_shown_tokens_prefix(b, b1, f, b1.len() as int);
        assert((a + b)[(a + b).len() - 1] == b.last());
    }
}

} // verus!

//! What the message list needs to know about its messages: their labels and
//! how many terminal lines each takes.

use vstd::prelude::*;
use crate::model::{Message, MessageType, MessageView, Timestamp};
use crate::text::{decimal, push_decimal};

verus! {

/// What `ratatui`'s `Paragraph::new(text).wrap(Wrap { trim: false })
/// .line_count(width)` gives: the number of lines the text takes when
/// word-wrapped to `width` terminal cells.
pub uninterp spec fn spec_wrapped_line_count(text: Seq<char>, width: u16) -> usize;

/// Calls `ratatui`'s `Paragraph::line_count` on a word-wrapped paragraph of
/// `text`. The result is named `spec_wrapped_line_count` of the text and the
/// width; the source also shows that a width of zero gives zero lines.
#[verifier::external_body]
fn wrapped_line_count(text: &str, width: u16) -> (r: usize)
    ensures
        r == spec_wrapped_line_count(text@, width),
        width == 0 ==> r == 0,
{
    ratatui::widgets::Paragraph::new(text).wrap(ratatui::widgets::Wrap { trim: false }).line_count(
        width,
    )
}

/// The number of terminal lines a message with content `content` takes at
/// `width` cells: its wrapped content, at least one line, inside a border of
/// one line above and one below, capped at `u16::MAX`.
pub open spec fn spec_message_height(content: Seq<char>, width: u16) -> u16 {
    let inner: u16 = if width >= 2 { (width - 2) as u16 } else { 0 };
    let lines = spec_wrapped_line_count(content, inner);
    let lines: int = if lines >= 1 { lines as int } else { 1 };
    if lines + 2 > u16::MAX {
        u16::MAX
    } else {
        (lines + 2) as u16
    }
}

/// The number of lines a message occupies in the list (border included).
pub fn message_height(msg: &Message, width: u16) -> (r: u16)
    ensures
        r == spec_message_height(msg.content@, width),
{
    let content_lines = wrapped_line_count(msg.content.as_str(), width.saturating_sub(2));
    let content_lines = if content_lines >= 1 { content_lines } else { 1 };
    let total = content_lines.saturating_add(2);
    if total > 0xffff {
        u16::MAX
    } else {
        total as u16
    }
}

/// The label shown in a message's title.
pub open spec fn spec_type_label(mt: MessageType) -> Seq<char> {
    match mt {
        MessageType::System => "SYSTEM"@,
        MessageType::User => "USER"@,
        MessageType::Assistant => "ASSISTANT"@,
        MessageType::ToolCall => "TOOL CALL"@,
        MessageType::ToolResult => "TOOL RESULT"@,
    }
}

pub fn type_label(mt: &MessageType) -> (r: &'static str)
    ensures
        r@ == spec_type_label(*mt),
{
    match mt {
        MessageType::System => "SYSTEM",
        MessageType::User => "USER",
        MessageType::Assistant => "ASSISTANT",
        MessageType::ToolCall => "TOOL CALL",
        MessageType::ToolResult => "TOOL RESULT",
    }
}

/// A number below 100 in two digits.
pub open spec fn two_digits(n: nat) -> Seq<char> {
    if n < 10 {
        seq!['0'] + decimal(n)
    } else {
        decimal(n)
    }
}

/// The seconds of a time within its day, counted from midnight UTC.
pub open spec fn second_of_day(t: Timestamp) -> nat {
    (t.secs % 86400) as nat
}

/// The time of day of `t` as `HH:MM:SS` in UTC; a leap second (nanoseconds
/// of a second or more) shows as second 60.
pub open spec fn spec_clock_text(t: Timestamp) -> Seq<char> {
    let d = second_of_day(t);
    let sec: nat = (d % 60 + if t.nanos >= 1_000_000_000 { 1nat } else { 0nat }) as nat;
    two_digits(d / 3600) + seq![':'] + two_digits((d % 3600) / 60) + seq![':'] + two_digits(sec)
}

fn push_two_digits(out: &mut String, n: u64)
    requires
        n < 100,
    ensures
        final(out)@ == old(out)@ + two_digits(n as nat),
{
    proof {
        reveal_strlit("0");
    }
    if n < 10 {
        out.append("0");
    }
    push_decimal(out, n);
    assert(final(out)@ =~= old(out)@ + two_digits(n as nat));
}

/// Appends the time of day of `t`, as `HH:MM:SS` in UTC.
fn push_clock_text(out: &mut String, t: Timestamp)
    ensures
        final(out)@ == old(out)@ + spec_clock_text(t),
{
    proof {
        reveal_strlit(":");
    }
    let r: i64 = t.secs % 86400;
    let d: u64 = if r < 0 {
        (r + 86400) as u64
    } else {
        r as u64
    };
    assert(d == second_of_day(t)) by {
        assert(t.secs % 86400 == (if r < 0 { r + 86400 } else { r as int }));
    }
    let sec: u64 = d % 60 + if t.nanos >= 1_000_000_000 { 1 } else { 0 };
    push_two_digits(out, d / 3600);
    out.append(":");
    push_two_digits(out, (d % 3600) / 60);
    out.append(":");
    push_two_digits(out, sec);
    assert(final(out)@ =~= old(out)@ + spec_clock_text(t));
}

/// An optional text behind a separator, or nothing.
pub open spec fn suffix(sep: Seq<char>, v: Option<Seq<char>>) -> Seq<char> {
    match v {
        Some(x) => sep + x,
        None => Seq::empty(),
    }
}

/// The token counts shown in a message's title; estimated counts are marked
/// with `~`.
pub open spec fn token_suffix(input: Option<u32>, output: Option<u32>, estimated: bool) -> Seq<char> {
    let mark: Seq<char> = if estimated {
        "~"@
    } else {
        Seq::empty()
    };
    match (input, output) {
        (Some(i), Some(o)) => "  "@ + mark + "in:"@ + decimal(i as nat) + " "@ + mark + "out:"@ + decimal(
            o as nat,
        ),
        (Some(i), None) => "  "@ + mark + "in:"@ + decimal(i as nat),
        (None, Some(o)) => "  "@ + mark + "out:"@ + decimal(o as nat),
        (None, None) => Seq::empty(),
    }
}

/// The project shown before a message's kind.
pub open spec fn project_prefix(project: Option<Seq<char>>) -> Seq<char> {
    match project {
        Some(p) => p + "  "@,
        None => Seq::empty(),
    }
}

/// The title of a message's box: its project (when known), kind, time of
/// day, tool, model and token counts (marked `~` when estimated).
pub open spec fn spec_message_title(m: MessageView, project: Option<Seq<char>>) -> Seq<char> {
    " "@ + project_prefix(project) + spec_type_label(m.message_type)
        + "  "@ + spec_clock_text(m.timestamp) + " "@ + suffix("  "@, m.tool_name) + suffix(
        "  "@,
        m.model,
    ) + token_suffix(m.input_tokens, m.output_tokens, m.tokens_estimated)
}

fn push_opt(out: &mut String, sep: &str, v: &Option<String>)
    ensures
        final(out)@ == old(out)@ + suffix(sep@, v.deep_view()),
{
    match v {
        Some(x) => {
            out.append(sep);
            out.append(x.as_str());
            assert(final(out)@ =~= old(out)@ + suffix(sep@, v.deep_view()));
        },
        None => {
            assert(final(out)@ =~= old(out)@ + suffix(sep@, v.deep_view()));
        },
    }
}

/// Appends the token counts of a title.
fn push_tokens(out: &mut String, input: Option<u32>, output: Option<u32>, estimated: bool)
    ensures
        final(out)@ == old(out)@ + token_suffix(input, output, estimated),
{
    let ghost before_tokens = out@;
    let mark = if estimated {
        "~"
    } else {
        ""
    };
    proof {
        reveal_strlit("");
    }
    match (input, output) {
        (Some(i), Some(o)) => {
            out.append("  ");
            out.append(mark);
            out.append("in:");
            push_decimal(out, i as u64);
            out.append(" ");
            out.append(mark);
            out.append("out:");
            push_decimal(out, o as u64);
        },
        (Some(i), None) => {
            out.append("  ");
            out.append(mark);
            out.append("in:");
            push_decimal(out, i as u64);
        },
        (None, Some(o)) => {
            out.append("  ");
            out.append(mark);
            out.append("out:");
            push_decimal(out, o as u64);
        },
        (None, None) => {},
    }
    assert(out@ =~= before_tokens + token_suffix(input, output, estimated));
}

/// The title of a message's box, given the project of its session.
pub fn message_title(msg: &Message, project: Option<&str>) -> (r: String)
    ensures
        r@ == spec_message_title(
            msg@,
            match project {
                Some(p) => Some(p@),
                None => None,
            },
        ),
{
    let mut out = String::new();
    out.append(" ");
    match project {
        Some(p) => {
            out.append(p);
            out.append("  ");
        },
        None => {},
    }
    out.append(type_label(&msg.message_type));
    out.append("  ");
    push_clock_text(&mut out, msg.timestamp);
    out.append(" ");
    push_opt(&mut out, "  ", &msg.tool_name);
    push_opt(&mut out, "  ", &msg.model);
    push_tokens(&mut out, msg.input_tokens, msg.output_tokens, msg.tokens_estimated);
    let ghost pv: Option<Seq<char>> = match project {
        Some(p) => Some(p@),
        None => None,
    };
    assert(out@ =~= spec_message_title(msg@, pv));
    out
}

/// The colour a message kind is drawn in.
#[derive(Clone, Copy, Debug, PartialEq, Eq, Structural)]
pub enum TypeColor {
    DarkGray,
    Blue,
    Green,
    Yellow,
    Cyan,
}

pub fn type_color(mt: &MessageType) -> (r: TypeColor)
    ensures
        r == match mt {
            MessageType::System => TypeColor::DarkGray,
            MessageType::User => TypeColor::Blue,
            MessageType::Assistant => TypeColor::Green,
            MessageType::ToolCall => TypeColor::Yellow,
            MessageType::ToolResult => TypeColor::Cyan,
        },
{
    match mt {
        MessageType::System => TypeColor::DarkGray,
        MessageType::User => TypeColor::Blue,
        MessageType::Assistant => TypeColor::Green,
        MessageType::ToolCall => TypeColor::Yellow,
        MessageType::ToolResult => TypeColor::Cyan,
    }
}

/// Where one message goes on screen: the row at which its box starts, the
/// number of rows it gets, and how many of its lines are scrolled off above
/// the list. When lines are scrolled off, the box is drawn without its top
/// border and its content scrolled by one line less.
#[derive(Clone, Copy, Debug, PartialEq, Eq, Structural)]
pub struct Placement {
    /// The position of the message among the rows given.
    pub index: usize,
    pub y: u16,
    pub height: u16,
    pub skip_lines: u16,
}

/// The placements of the messages from `i` on, the first of them starting
/// `cumulative` lines into the list and the next free row being `y`; with
/// the row after the last placed message.
pub open spec fn spec_place_from(
    hs: Seq<u16>,
    i: int,
    cumulative: int,
    y: int,
    bottom: int,
    scroll: int,
) -> (Seq<Placement>, int)
    decreases hs.len() - i,
{
    if i < 0 || i >= hs.len() {
        (Seq::empty(), y)
    } else {
        let h = hs[i] as int;
        let end = cumulative + h;
        if end <= scroll {
            spec_place_from(hs, i + 1, end, y, bottom, scroll)
        } else if y >= bottom {
            (Seq::empty(), y)
        } else {
            let skip = if scroll > cumulative {
                scroll - cumulative
            } else {
                0
            };
            let avail = if bottom - y < h - skip {
                bottom - y
            } else {
                h - skip
            };
            let rest = spec_place_from(hs, i + 1, end, y + avail, bottom, scroll);
            (
                seq![Placement { index: i as usize, y: y as u16, height: avail as u16, skip_lines: skip as u16 }]
                    + rest.0,
                rest.1,
            )
        }
    }
}

/// The lines taken by the first `n` messages.
pub open spec fn lines_before(hs: Seq<u16>, n: int) -> int
    decreases n,
{
    if n <= 0 {
        0
    } else {
        lines_before(hs, n - 1) + hs[n - 1] as int
    }
}

/// Lays out messages of the given heights in the list area that starts at
/// row `top` and is `height` rows tall (and `width` columns wide), scrolled
/// by `scroll_offset` lines: messages wholly above the view are skipped,
/// messages are stacked from the top, and those that no longer fit are left
/// out. Gives the placements and the first row below the last message; or
/// `None` when the area or the total height does not fit its integer type.
pub fn place_rows(heights: &Vec<u16>, top: u16, height: u16, width: u16, scroll_offset: usize) -> (r:
    Option<(Vec<Placement>, u16)>)
    ensures
        top + height > u16::MAX ==> r is None,
        top + height <= u16::MAX && (height == 0 || width == 0) ==> (r matches Some((ps, y))
            && ps@.len() == 0 && y == top),
        top + height <= u16::MAX && height > 0 && width > 0 ==> match r {
            Some((ps, y)) => (ps@, y as int) == spec_place_from(
                heights@,
                0,
                0,
                top as int,
                top + height,
                scroll_offset as int,
            ),
            None => lines_before(heights@, heights@.len() as int) > usize::MAX,
        },
{
    let bottom = match top.checked_add(height) {
        Some(b) => b,
        None => return None,
    };
    if height == 0 || width == 0 {
        return Some((Vec::new(), top));
    }
    let ghost whole = spec_place_from(heights@, 0, 0, top as int, bottom as int, scroll_offset as int);
    let mut out: Vec<Placement> = Vec::new();
    let mut cumulative: usize = 0;
    let mut y: u16 = top;
    let mut i: usize = 0;
    while i < heights.len()
        invariant_except_break
            height > 0 && width > 0,
            bottom == top + height,
            i <= heights@.len(),
            y <= bottom,
            cumulative as int == lines_before(heights@, i as int),
            ({
                let rest = spec_place_from(heights@, i as int, cumulative as int, y as int, bottom as int, scroll_offset as int);
                out@ + rest.0 == whole.0 && rest.1 == whole.1
            }),
        ensures
            out@ == whole.0 && y as int == whole.1,
        decreases heights@.len() - i,
    {
        let h = heights[i];
        let msg_start = cumulative;
        let msg_end = match cumulative.checked_add(h as usize) {
            Some(e) => e,
            None => {
                proof {
                    lemma_lines_before_grow(heights@, i as int + 1, heights@.len() as int);
                }
                return None;
            },
        };
        cumulative = msg_end;
        if msg_end <= scroll_offset {
            i = i + 1;
            continue;
        }
        if y >= bottom {
            assert(out@ + Seq::<Placement>::empty() =~= out@);
            break;
        }
        let skip_lines: usize = scroll_offset.saturating_sub(msg_start);
        let remaining: usize = (h as usize) - skip_lines;
        let room: u16 = bottom - y;
        let available: u16 = if (room as usize) < remaining {
            room
        } else {
            remaining as u16
        };
        let ghost before = out@;
        out.push(Placement { index: i, y, height: available, skip_lines: skip_lines as u16 });
        proof {
            let rest = spec_place_from(heights@, i as int + 1, msg_end as int, y + available, bottom as int, scroll_offset as int);
            assert(out@ + rest.0 =~= before + (seq![out@.last()] + rest.0));
        }
        y = y + available;
        i = i + 1;
    }
    proof {
        if i >= heights@.len() {
            assert(out@ + Seq::<Placement>::empty() =~= out@);
        }
    }
    Some((out, y))
}

/// Later messages only add lines.
proof fn lemma_lines_before_grow(hs: Seq<u16>, a: int, b: int)
    requires
        0 <= a <= b,
    ensures
        lines_before(hs, a) <= lines_before(hs, b),
    decreases b - a,
{
    if a < b {
        lemma_lines_before_grow(hs, a, b - 1);
    }
}

/// The placed messages tile the list area: they follow one another without
/// gaps or overlap from the first free row, stay inside the area, keep the
/// messages' order, and only the first may be partly scrolled off.
pub proof fn lemma_placements_tile(
    hs: Seq<u16>,
    i: int,
    cumulative: int,
    y: int,
    bottom: int,
    scroll: int,
)
    requires
        0 <= i,
        hs.len() <= usize::MAX,
        0 <= cumulative,
        y <= bottom <= u16::MAX,
        0 <= y,
        0 <= scroll,
    ensures
        ({
            let (ps, y_end) = spec_place_from(hs, i, cumulative, y, bottom, scroll);
            &&& y <= y_end <= bottom
            &&& ps.len() > 0 ==> ps[0].y == y && ps.last().y + ps.last().height == y_end
            &&& forall|k: int|
                0 <= k < ps.len() - 1 ==> (#[trigger] ps[k + 1]).y == ps[k].y + ps[k].height
                    && ps[k].index < ps[k + 1].index && ps[k + 1].skip_lines == 0
            &&& forall|k: int| 0 <= k < ps.len() ==> i <= (#[trigger] ps[k]).index < hs.len()
        }),
    decreases hs.len() - i,
{
    if i < hs.len() {
        let h = hs[i] as int;
        let end = cumulative + h;
        if end <= scroll {
            lemma_placements_tile(hs, i + 1, end, y, bottom, scroll);
            assert(spec_place_from(hs, i, cumulative, y, bottom, scroll) == spec_place_from(hs, i + 1, end, y, bottom, scroll));
        } else if y < bottom {
            let skip = if scroll > cumulative {
                scroll - cumulative
            } else {
                0
            };
            let avail = if bottom - y < h - skip {
                bottom - y
            } else {
                h - skip
            };
            lemma_placements_tile(hs, i + 1, end, y + avail, bottom, scroll);
            lemma_no_skip_after(hs, i + 1, end, y + avail, bottom, scroll);
            let rest = spec_place_from(hs, i + 1, end, y + avail, bottom, scroll);
            let ps = spec_place_from(hs, i, cumulative, y, bottom, scroll).0;
            let first = Placement { index: i as usize, y: y as u16, height: avail as u16, skip_lines: skip as u16 };
            assert(ps == seq![first] + rest.0);
            assert(first.y == y && first.height == avail && first.index == i);
            assert(ps[0] == first);
            assert forall|k: int| 0 <= k < ps.len() - 1 implies (#[trigger] ps[k + 1]).y == ps[k].y
                + ps[k].height && ps[k].index < ps[k + 1].index && ps[k + 1].skip_lines == 0 by {
                if k > 0 {
                    let j = k - 1;
                    assert(ps[k] == rest.0[j]);
                    assert(ps[k + 1] == rest.0[j + 1]);
                } else {
                    assert(ps[1] == rest.0[0]);
                    assert(rest.0[0].y == y + avail);
                    assert(i + 1 <= rest.0[0].index);
                }
            }
            assert forall|k: int| 0 <= k < ps.len() implies i <= (#[trigger] ps[k]).index < hs.len() by {
                if k > 0 {
                    assert(ps[k] == rest.0[k - 1]);
                }
            }
        }
    }
}

/// Once the list has scrolled past a message's start, later messages are
/// not scrolled into.
proof fn lemma_no_skip_after(
    hs: Seq<u16>,
    i: int,
    cumulative: int,
    y: int,
    bottom: int,
    scroll: int,
)
    requires
        cumulative >= scroll,
    ensures
        forall|k: int|
            0 <= k < spec_place_from(hs, i, cumulative, y, bottom, scroll).0.len() ==> (
            #[trigger] spec_place_from(hs, i, cumulative, y, bottom, scroll).0[k]).skip_lines == 0,
    decreases hs.len() - i,
{
    if 0 <= i < hs.len() {
        let h = hs[i] as int;
        let end = cumulative + h;
        if end <= scroll {
            lemma_no_skip_after(hs, i + 1, end, y, bottom, scroll);
            assert(spec_place_from(hs, i, cumulative, y, bottom, scroll) == spec_place_from(hs, i + 1, end, y, bottom, scroll));
        } else if y < bottom {
            let avail = if bottom - y < h {
                bottom - y
            } else {
                h
            };
            lemma_no_skip_after(hs, i + 1, end, y + avail, bottom, scroll);
            let rest = spec_place_from(hs, i + 1, end, y + avail, bottom, scroll);
            let ps = spec_place_from(hs, i, cumulative, y, bottom, scroll).0;
            assert(ps[0].skip_lines == 0);
            assert(ps.len() == rest.0.len() + 1);
            assert forall|k: int| 0 <= k < ps.len() implies (#[trigger] ps[k]).skip_lines == 0 by {
                if k > 0 {
                    assert(ps[k] == rest.0[k - 1]);
                }
            }
        }
    }
}

} // verus!

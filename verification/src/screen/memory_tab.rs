//! The memory tab: the command log, and the strongest memories.

use crate::app::{status_view, App};
use crate::live::{first_items, last_items};
use crate::model::{messages_view, AppView, Message, MessageView, Role};
use crate::reply::{memories_view, MemoryEntry, MemoryView, Status, StatusView};
use crate::shade::{amplitude_color, amplitude_shade, level_color, level_shade, lowercase};
use crate::style::{
    append_lines, framed, heading, no_lines, page, piece, push_line, single_line, Color, Flow,
    Line, Panel, PanelView, SpanView, Style,
};
use crate::text::{concat2, decimal, digits, first_chars, repeat, repeated, take_chars};
use vstd::prelude::*;

verus! {

// ---------------------------------------------------------------------------
// The command log
// ---------------------------------------------------------------------------

/// The mark before a message, and its colour.
pub open spec fn role_mark(role: Role) -> (Seq<char>, Color) {
    match role {
        Role::User => ("> "@, Color::Accent),
        Role::System => ("\u{2192} "@, Color::Info),
        Role::Result => ("\u{2713} "@, Color::Success),
        Role::Error => ("\u{2717} "@, Color::Error),
    }
}

/// A message as a line.
pub open spec fn message_line(m: MessageView) -> Seq<SpanView> {
    let (mark, color) = role_mark(m.role);
    seq![piece(mark, Style::fg(color)), piece(m.content, Style::fg(color))]
}

/// The messages in sight: the last ones that fit, but for those at the end
/// that have been scrolled past.
pub open spec fn window(messages: Seq<MessageView>, skipped: nat, height: nat) -> Seq<MessageView> {
    if messages.len() <= skipped {
        seq![]
    } else {
        last_items(messages.subrange(0, messages.len() - skipped), height)
    }
}

/// The command log in a tab of a height.
pub open spec fn log_panel(a: AppView, height: u16) -> PanelView {
    framed(
        heading(" Command History "@),
        Color::Dim,
        window(a.messages, a.scroll_offset as nat, height as nat).map_values(
            |m: MessageView| message_line(m),
        ),
        Flow::List,
    )
}

fn write_message(m: &Message) -> (r: Line)
    ensures
        r@ == message_line(m@),
{
    match m.role {
        Role::User => {
            let s = Style::fg(Color::Accent);
            Line::two("> ", s, m.content.as_str(), s)
        },
        Role::System => {
            let s = Style::fg(Color::Info);
            Line::two("\u{2192} ", s, m.content.as_str(), s)
        },
        Role::Result => {
            let s = Style::fg(Color::Success);
            Line::two("\u{2713} ", s, m.content.as_str(), s)
        },
        Role::Error => {
            let s = Style::fg(Color::Error);
            Line::two("\u{2717} ", s, m.content.as_str(), s)
        },
    }
}

/// Writes the command log, in a tab of a height.
pub fn render_log(app: &App, height: u16) -> (r: Panel)
    ensures
        r@ == log_panel(app@, height),
{
    let n: usize = app.messages.len();
    let end: usize = if n <= app.scroll_offset { 0 } else { n - app.scroll_offset };
    let start: usize = if end <= height as usize { 0 } else { end - height as usize };
    let ghost shown = window(app@.messages, app.scroll_offset as nat, height as nat);
    assert(shown =~= app@.messages.subrange(start as int, end as int));
    let mut lines = no_lines();
    let mut i: usize = start;
    while i < end
        invariant
            start <= i <= end <= n,
            n == app.messages@.len(),
            shown == messages_view(app.messages@).subrange(start as int, end as int),
            page(lines@).len() == i - start,
            forall|k: int|
                0 <= k < i - start ==> #[trigger] page(lines@)[k] == message_line(shown[k]),
        decreases end - i,
    {
        let ghost before = page(lines@);
        push_line(&mut lines, write_message(&app.messages[i]));
        assert(page(lines@)[i - start] == message_line(shown[i - start]));
        assert(forall|k: int| 0 <= k < i - start ==> page(lines@)[k] == before[k]);
        i = i + 1;
    }
    assert(page(lines@) =~= shown.map_values(|m: MessageView| message_line(m)));
    Panel::titled(" Command History ", Color::Dim, lines, Flow::List)
}

// ---------------------------------------------------------------------------
// The memories
// ---------------------------------------------------------------------------

/// The amplitude of a memory as it is shown: a single by its bits, that single
/// written with two decimals, and the nearest whole number to ten times it,
/// never below zero.
pub struct Amplitude {
    pub bits: u32,
    pub fixed2: String,
    pub tenths: usize,
}

/// A bar of ten cells, of which the first are full.
pub open spec fn gauge_bar(tenths: usize) -> Seq<char> {
    if tenths >= 10 {
        repeated('\u{2588}', 10)
    } else {
        repeated('\u{2588}', tenths as nat) + repeated('\u{2591}', (10 - tenths) as nat)
    }
}

/// A memory as a line.
pub open spec fn memory_line(m: MemoryView, amplitude: Amplitude) -> Seq<SpanView> {
    seq![
        piece(gauge_bar(amplitude.tenths), Style::fg(amplitude_shade(amplitude.bits))),
        piece(" "@, Style::plain()),
        piece(
            first_chars(m.content, 24) + " ("@ + amplitude.fixed2@ + ")"@,
            Style::fg(Color::Text),
        ),
    ]
}

/// The lines of the memories that fit into a panel of a height.
pub open spec fn memory_lines(
    memories: Seq<MemoryView>,
    amplitudes: Seq<Amplitude>,
    height: u16,
) -> Seq<Seq<SpanView>> {
    let room = if height < 6 {
        0
    } else {
        (height - 6) as nat
    };
    let shown = first_items(memories, room);
    Seq::new(shown.len(), |i: int| memory_line(shown[i], amplitudes[i]))
}

/// The counts below the memories.
pub open spec fn count_lines(status: Option<StatusView>) -> Seq<Seq<SpanView>> {
    let (memories, clusters, links) = match status {
        Some(s) => (s.memories, s.clusters, s.links),
        None => (0, 0, 0),
    };
    let level = match status {
        Some(s) => s.level,
        None => "Unknown"@,
    };
    seq![
        seq![],
        single_line("  Memories: "@ + digits(memories as nat), Style::fg(Color::Dim)),
        single_line("  Clusters: "@ + digits(clusters as nat), Style::fg(Color::Dim)),
        single_line("  Links: "@ + digits(links as nat), Style::fg(Color::Dim)),
        single_line("  Level: "@ + level, Style::fg(level_shade(lowercase(level)))),
    ]
}

/// The memories in a panel of a height.
pub open spec fn memories_panel(
    a: AppView,
    amplitudes: Seq<Amplitude>,
    height: u16,
) -> PanelView {
    framed(
        heading(" Recent Memories "@),
        Color::Dim,
        memory_lines(a.memories, amplitudes, height) + count_lines(a.status),
        Flow::List,
    )
}

fn write_bar(tenths: usize) -> (r: String)
    ensures
        r@ == gauge_bar(tenths),
{
    if tenths >= 10 {
        repeat('\u{2588}', 10)
    } else {
        concat2(
            repeat('\u{2588}', tenths).as_str(),
            repeat('\u{2591}', 10 - tenths).as_str(),
        )
    }
}

fn write_memory(m: &MemoryEntry, amplitude: &Amplitude) -> (r: Line)
    ensures
        r@ == memory_line(m@, *amplitude),
{
    let bar = write_bar(amplitude.tenths);
    let mut text = take_chars(m.content.as_str(), 24);
    text.append(" (");
    text.append(amplitude.fixed2.as_str());
    text.append(")");
    Line::three(
        bar.as_str(),
        Style::fg(amplitude_color(amplitude.bits)),
        " ",
        Style::plain(),
        text.as_str(),
        Style::fg(Color::Text),
    )
}

fn write_memories(
    memories: &Vec<MemoryEntry>,
    amplitudes: &Vec<Amplitude>,
    height: u16,
) -> (r: Vec<Line>)
    requires
        amplitudes@.len() == memories@.len(),
    ensures
        page(r@) == memory_lines(memories_view(memories@), amplitudes@, height),
{
    let room: usize = if height < 6 { 0 } else { height as usize - 6 };
    let n: usize = if memories.len() <= room { memories.len() } else { room };
    let ghost all = memory_lines(memories_view(memories@), amplitudes@, height);
    let mut lines = no_lines();
    let mut i: usize = 0;
    while i < n
        invariant
            i <= n <= memories@.len(),
            memories@.len() == amplitudes@.len(),
            n == all.len(),
            forall|k: int|
                0 <= k < n ==> #[trigger] all[k] == memory_line(memories@[k]@, amplitudes@[k]),
            page(lines@).len() == i,
            forall|k: int| 0 <= k < i ==> #[trigger] page(lines@)[k] == all[k],
        decreases n - i,
    {
        let ghost before = page(lines@);
        push_line(&mut lines, write_memory(&memories[i], &amplitudes[i]));
        assert(page(lines@)[i as int] == all[i as int]);
        assert(forall|k: int| 0 <= k < i ==> page(lines@)[k] == before[k]);
        i = i + 1;
    }
    assert(page(lines@) =~= all);
    lines
}

fn write_count(label: &str, count: u64) -> (r: Line)
    ensures
        r@ == single_line(label@ + digits(count as nat), Style::fg(Color::Dim)),
{
    let text = concat2(label, decimal(count).as_str());
    Line::of(text.as_str(), Style::fg(Color::Dim))
}

fn write_counts(status: &Option<Status>) -> (r: Vec<Line>)
    ensures
        page(r@) == count_lines(status_view(*status)),
{
    let memories: u64 = match status {
        Some(s) => s.memories,
        None => 0,
    };
    let clusters: u64 = match status {
        Some(s) => s.clusters,
        None => 0,
    };
    let links: u64 = match status {
        Some(s) => s.links,
        None => 0,
    };
    let level: &str = match status {
        Some(s) => s.level.as_str(),
        None => "Unknown",
    };
    let mut lines = no_lines();
    push_line(&mut lines, Line::empty());
    push_line(&mut lines, write_count("  Memories: ", memories));
    push_line(&mut lines, write_count("  Clusters: ", clusters));
    push_line(&mut lines, write_count("  Links: ", links));
    let text = concat2("  Level: ", level);
    push_line(&mut lines, Line::of(text.as_str(), Style::fg(level_color(level))));
    assert(page(lines@) =~= count_lines(status_view(*status)));
    lines
}

/// Writes the memories, in a panel of a height, each with its amplitude.
pub fn render_memories(app: &App, amplitudes: &Vec<Amplitude>, height: u16) -> (r: Panel)
    requires
        amplitudes@.len() == app.memories@.len(),
    ensures
        r@ == memories_panel(app@, amplitudes@, height),
{
    let mut lines = write_memories(&app.memories, amplitudes, height);
    append_lines(&mut lines, write_counts(&app.status));
    Panel::titled(" Recent Memories ", Color::Dim, lines, Flow::List)
}

/// The memory tab.
pub struct MemoryTab {
    pub log: Panel,
    pub memories: Panel,
}

/// Writes the memory tab: its own height decides how much of the command log
/// it shows, the height of the right panel how many memories.
pub fn render_memory_tab(
    app: &App,
    amplitudes: &Vec<Amplitude>,
    height: u16,
    right_height: u16,
) -> (r: MemoryTab)
    requires
        amplitudes@.len() == app.memories@.len(),
    ensures
        r.log@ == log_panel(app@, height),
        r.memories@ == memories_panel(app@, amplitudes@, right_height),
{
    MemoryTab {
        log: render_log(app, height),
        memories: render_memories(app, amplitudes, right_height),
    }
}

/// The messages in sight are consecutive, and no more than fit; at the bottom
/// the last message is among them.
pub proof fn law_window_fits(messages: Seq<MessageView>, skipped: nat, height: nat)
    ensures
        window(messages, skipped, height).len() <= height,
        skipped <= messages.len() ==> window(messages, skipped, height) == messages.subrange(
            messages.len() - skipped - window(messages, skipped, height).len(),
            messages.len() - skipped,
        ),
        height > 0 && messages.len() > 0 ==> window(messages, 0, height).last()
            == messages.last(),
{
    if skipped <= messages.len() {
        let w = window(messages, skipped, height);
        assert(w =~= messages.subrange(
            messages.len() - skipped - w.len(),
            messages.len() - skipped,
        ));
    }
}

} // verus!

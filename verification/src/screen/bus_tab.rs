//! The bus tab: the newest rows of the stream.

use crate::app::App;
use crate::bus::{bus_subject_color, subject_color, BusLine, BusLineView};
use crate::clock::{bus_time, format_bus_ts};
use crate::live::{last_items, BusStatus, LiveView};
use crate::style::{
    framed, heading, no_lines, page, piece, push_line, Color, Flow, Line, Panel, PanelView,
    SpanView, Style,
};
use crate::text::{concat2, decimal, digits, left_aligned, pad_right, shortened, truncate};
use vstd::prelude::*;

verus! {

/// What is said of the stream, and its colour.
pub open spec fn bus_label(status: BusStatus) -> (Seq<char>, Color) {
    match status {
        BusStatus::Off => ("idle \u{2014} switch to this tab to start"@, Color::Dim),
        BusStatus::Connecting => ("connecting\u{2026}"@, Color::Warning),
        BusStatus::Streaming => ("streaming"@, Color::Success),
        BusStatus::Failed => (
            "failed \u{2014} check `kannaka swarm tail` manually"@,
            Color::Error,
        ),
    }
}

/// A row of the stream as a line, in a zone some seconds ahead of universal
/// time.
pub open spec fn bus_row(row: BusLineView, offset_secs: i32) -> Seq<SpanView> {
    seq![
        piece(bus_time(row.ts_ms, offset_secs) + " "@, Style::fg(Color::Dim)),
        piece(
            left_aligned(shortened(row.subject, 28), 28) + " "@,
            Style::bold(subject_color(row.subject)),
        ),
        piece(row.summary, Style::fg(Color::Text)),
    ]
}

/// How many rows fit into the tab: one at least.
pub open spec fn rows_in(height: u16) -> nat {
    if height <= 3 {
        1
    } else {
        (height - 2) as nat
    }
}

/// The lines of the newest rows, the newest last. There is an offset for each
/// row of the backlog.
pub open spec fn bus_rows(
    rows: Seq<BusLineView>,
    offsets: Seq<i32>,
    height: u16,
) -> Seq<Seq<SpanView>> {
    let shown = last_items(rows, rows_in(height));
    let skipped = rows.len() - shown.len();
    Seq::new(shown.len(), |i: int| bus_row(shown[i], offsets[skipped + i]))
}

/// The bus tab in an area of a height.
pub open spec fn bus_panel(live: LiveView, offsets: Seq<i32>, height: u16) -> PanelView {
    let (label, color) = bus_label(live.status);
    framed(
        heading(
            " Bus \u{b7} "@ + label + " \u{b7} "@ + digits(live.lines.len()) + " msgs "@,
        ),
        color,
        bus_rows(live.lines, offsets, height),
        Flow::Wrapped { scroll: 0 },
    )
}

fn write_bus_row(row: &BusLine, offset_secs: i32) -> (r: Line)
    ensures
        r@ == bus_row(row@, offset_secs),
{
    let time = concat2(format_bus_ts(row.ts_ms, offset_secs).as_str(), " ");
    let short = truncate(row.subject.as_str(), 28);
    let subject = concat2(pad_right(short.as_str(), 28).as_str(), " ");
    Line::three(
        time.as_str(),
        Style::fg(Color::Dim),
        subject.as_str(),
        Style::bold(bus_subject_color(row.subject.as_str())),
        row.summary.as_str(),
        Style::fg(Color::Text),
    )
}

fn label_of(status: BusStatus) -> (r: (&'static str, Color))
    ensures
        (r.0@, r.1) == bus_label(status),
{
    match status {
        BusStatus::Off => ("idle \u{2014} switch to this tab to start", Color::Dim),
        BusStatus::Connecting => ("connecting\u{2026}", Color::Warning),
        BusStatus::Streaming => ("streaming", Color::Success),
        BusStatus::Failed => (
            "failed \u{2014} check `kannaka swarm tail` manually",
            Color::Error,
        ),
    }
}

/// Writes the bus tab in an area of a height, given for each row of the
/// backlog how far the local zone is ahead of universal time then.
pub fn render_bus_tab(app: &App, offsets: &Vec<i32>, height: u16) -> (r: Panel)
    requires
        offsets@.len() == app.live.lines@.len(),
    ensures
        r@ == bus_panel(app@.live, offsets@, height),
{
    let (label, color) = label_of(app.live.status);
    let n: usize = app.live.lines.len();
    let room: usize = if height <= 3 { 1 } else { height as usize - 2 };
    let start: usize = if n <= room { 0 } else { n - room };
    let ghost all = bus_rows(app@.live.lines, offsets@, height);
    let mut lines = no_lines();
    let mut i: usize = start;
    while i < n
        invariant
            start <= i <= n,
            n == app.live.lines@.len(),
            n == offsets@.len(),
            all.len() == n - start,
            forall|k: int|
                0 <= k < all.len() ==> #[trigger] all[k] == bus_row(
                    app.live.lines@[start + k]@,
                    offsets@[start + k],
                ),
            page(lines@).len() == i - start,
            forall|k: int| 0 <= k < i - start ==> #[trigger] page(lines@)[k] == all[k],
        decreases n - i,
    {
        let ghost before = page(lines@);
        push_line(&mut lines, write_bus_row(&app.live.lines[i], offsets[i]));
        assert(page(lines@)[i - start] == all[i - start]);
        assert(forall|k: int| 0 <= k < i - start ==> page(lines@)[k] == before[k]);
        i = i + 1;
    }
    assert(page(lines@) =~= all);
    let mut title = concat2(" Bus \u{b7} ", label);
    title.append(" \u{b7} ");
    title.append(decimal(n as u64).as_str());
    title.append(" msgs ");
    Panel::titled(title.as_str(), color, lines, Flow::Wrapped { scroll: 0 })
}

} // verus!

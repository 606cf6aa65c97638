//! The dreams tab: the local dream, the dreams of the constellation, and the
//! hotkeys.

use crate::app::App;
use crate::bus::{DreamEvent, DreamView};
use crate::clock::{bus_time, format_bus_ts};
use crate::dream::{elapsed, since, DreamRunState, DreamRunView};
use crate::live::first_items;
use crate::shade::{delta_color, delta_shade};
use crate::style::{
    append_lines, framed, heading, no_lines, page, piece, push_line, single_line, Color, Flow,
    Line, Panel, PanelView, SpanView, Style,
};
use crate::text::{
    concat2, concat3, decimal, digits, flatten_lines, left_aligned, on_one_line, pad_left,
    pad_right, right_aligned, shortened, truncate,
};
use vstd::prelude::*;

verus! {

// ---------------------------------------------------------------------------
// The local dream
// ---------------------------------------------------------------------------

/// The line that names the mode of a dream.
pub open spec fn mode_line(mode: Seq<char>, color: Color) -> Seq<SpanView> {
    seq![piece("  Mode: "@, Style::fg(Color::Dim)), piece(mode, Style::bold(color))]
}

/// The title of the panel of the local dream, its colour and its lines. A
/// dream that is done comes with the seconds that it took, with one decimal.
pub open spec fn run_parts(run: DreamRunView, took_secs: Seq<char>, now: u64) -> (
    Seq<char>,
    Color,
    Seq<Seq<SpanView>>,
) {
    match run {
        DreamRunView::Idle => (
            " Local Dream \u{b7} idle "@,
            Color::Dim,
            seq![
                single_line(
                    "  Press 'd' for deep, 'l' for lite \u{2014} or type `dream` in the bar."@,
                    Style::fg(Color::Dim),
                ),
            ],
        ),
        DreamRunView::Running { mode, started } => (
            " Local Dream \u{b7} running "@,
            Color::Warning,
            seq![
                mode_line(mode, Color::Warning).push(
                    piece(
                        "    elapsed: "@ + digits((elapsed(started, now) / 1_000_000_000) as nat)
                            + "s"@,
                        Style::fg(Color::Dim),
                    ),
                ),
                single_line(
                    "  Consolidating the medium \u{2014} TUI stays responsive while this runs."@,
                    Style::fg(Color::Dim),
                ),
            ],
        ),
        DreamRunView::Done { mode, took, summary } => (
            " Local Dream \u{b7} complete "@,
            Color::Success,
            seq![
                mode_line(mode, Color::Success).push(
                    piece("    took: "@ + took_secs + "s"@, Style::fg(Color::Dim)),
                ),
                single_line(
                    "  "@ + shortened(on_one_line(summary), 200),
                    Style::fg(Color::Text),
                ),
            ],
        ),
        DreamRunView::Failed { mode, error } => (
            " Local Dream \u{b7} failed "@,
            Color::Error,
            seq![
                mode_line(mode, Color::Error),
                single_line("  "@ + shortened(error, 200), Style::fg(Color::Error)),
            ],
        ),
    }
}

/// The panel of the local dream.
pub open spec fn run_panel(run: DreamRunView, took_secs: Seq<char>, now: u64) -> PanelView {
    let (title, color, lines) = run_parts(run, took_secs, now);
    framed(heading(title), color, lines, Flow::Wrapped { scroll: 0 })
}

fn write_mode(mode: &str, color: Color) -> (r: Line)
    ensures
        r@ == mode_line(mode@, color),
{
    Line::two("  Mode: ", Style::fg(Color::Dim), mode, Style::bold(color))
}

fn two_lines(a: Line, b: Line) -> (r: Vec<Line>)
    ensures
        page(r@) == seq![a@, b@],
{
    let mut r = no_lines();
    push_line(&mut r, a);
    push_line(&mut r, b);
    assert(page(r@) =~= seq![a@, b@]);
    r
}

fn write_run(run: &DreamRunState, took_secs: &str, now: u64) -> (r: (
    &'static str,
    Color,
    Vec<Line>,
))
    ensures
        (r.0@, r.1, page(r.2@)) == run_parts(run@, took_secs@, now),
{
    match run {
        DreamRunState::Idle => {
            let mut lines = no_lines();
            push_line(
                &mut lines,
                Line::of(
                    "  Press 'd' for deep, 'l' for lite \u{2014} or type `dream` in the bar.",
                    Style::fg(Color::Dim),
                ),
            );
            assert(page(lines@) =~= run_parts(run@, took_secs@, now).2);
            (" Local Dream \u{b7} idle ", Color::Dim, lines)
        },
        DreamRunState::Running { mode, started } => {
            let secs: u64 = since(*started, now) / 1_000_000_000;
            let text = concat3("    elapsed: ", decimal(secs).as_str(), "s");
            let mut first = write_mode(mode.as_str(), Color::Warning);
            first.push(text.as_str(), Style::fg(Color::Dim));
            let second = Line::of(
                "  Consolidating the medium \u{2014} TUI stays responsive while this runs.",
                Style::fg(Color::Dim),
            );
            (" Local Dream \u{b7} running ", Color::Warning, two_lines(first, second))
        },
        DreamRunState::Done { mode, took: _, summary } => {
            let text = concat3("    took: ", took_secs, "s");
            let mut first = write_mode(mode.as_str(), Color::Success);
            first.push(text.as_str(), Style::fg(Color::Dim));
            let flat = flatten_lines(summary.as_str());
            let short = concat2("  ", truncate(flat.as_str(), 200).as_str());
            let second = Line::of(short.as_str(), Style::fg(Color::Text));
            (" Local Dream \u{b7} complete ", Color::Success, two_lines(first, second))
        },
        DreamRunState::Failed { mode, error } => {
            let first = write_mode(mode.as_str(), Color::Error);
            let short = concat2("  ", truncate(error.as_str(), 200).as_str());
            let second = Line::of(short.as_str(), Style::fg(Color::Error));
            (" Local Dream \u{b7} failed ", Color::Error, two_lines(first, second))
        },
    }
}

/// Writes the panel of the local dream. A dream that is done comes with the
/// seconds that it took, with one decimal.
pub fn render_run(run: &DreamRunState, took_secs: &str, now: u64) -> (r: Panel)
    ensures
        r@ == run_panel(run@, took_secs@, now),
{
    let (title, color, lines) = write_run(run, took_secs, now);
    Panel::titled(title, color, lines, Flow::Wrapped { scroll: 0 })
}

// ---------------------------------------------------------------------------
// The dreams of the constellation
// ---------------------------------------------------------------------------

/// How a dream changed phi, and when: the change is a single by its bits,
/// and the same with its sign and three decimals; the local zone is some
/// seconds ahead of universal time.
pub struct DreamReading {
    pub delta: u32,
    pub signed3: String,
    pub offset_secs: i32,
}

/// A dream report as a line.
pub open spec fn dream_row(d: DreamView, reading: DreamReading) -> Seq<SpanView> {
    seq![
        piece(
            if d.emerged {
                "\u{2605} "@
            } else {
                "  "@
            },
            Style::fg(Color::Accent),
        ),
        piece(bus_time(d.ts_ms, reading.offset_secs) + " "@, Style::fg(Color::Dim)),
        piece(
            left_aligned(shortened(d.agent_id, 14), 14) + " "@,
            Style::bold(Color::Accent),
        ),
        piece(right_aligned(digits(d.cycles as nat), 6) + "  "@, Style::fg(Color::Text)),
        piece(
            right_aligned(reading.signed3@, 5) + " "@,
            Style::fg(delta_shade(reading.delta)),
        ),
        piece(
            right_aligned(digits(d.strengthened as nat), 5) + "  "@ + right_aligned(
                digits(d.pruned as nat),
                5,
            ) + "  "@ + right_aligned(digits(d.new_connections as nat), 5) + "  "@
                + right_aligned(digits(d.hallucinations as nat), 5),
            Style::fg(Color::Text),
        ),
    ]
}

/// How many reports fit into the panel: one at least.
pub open spec fn dreams_in(height: u16) -> nat {
    if height <= 4 {
        1
    } else {
        (height - 3) as nat
    }
}

/// The lines of the newest reports.
pub open spec fn dream_rows(
    dreams: Seq<DreamView>,
    readings: Seq<DreamReading>,
    height: u16,
) -> Seq<Seq<SpanView>> {
    let shown = first_items(dreams, dreams_in(height));
    Seq::new(shown.len(), |i: int| dream_row(shown[i], readings[i]))
}

/// The lines above the reports.
pub open spec fn dream_header() -> Seq<Seq<SpanView>> {
    seq![
        single_line(
            "  time     agent           cycles  +\u{3a6}    \u{394}str  \u{394}prn  \u{394}new  halluc"@,
            Style::bold(Color::Dim),
        ),
        seq![],
    ]
}

/// The lines in the place of reports when there are none.
pub open spec fn no_dreams() -> Seq<Seq<SpanView>> {
    seq![
        single_line(
            "  No KANNAKA.dreams events on the bus yet \u{2014} once any constellation node"@,
            Style::fg(Color::Dim),
        ),
        single_line(
            "  finishes a dream cycle, the report shows up here."@,
            Style::fg(Color::Dim),
        ),
    ]
}

/// The panel of the dreams of the constellation, of a height.
pub open spec fn history_panel(
    dreams: Seq<DreamView>,
    readings: Seq<DreamReading>,
    height: u16,
) -> PanelView {
    framed(
        heading(" Recent Dreams \u{b7} "@ + digits(dreams.len()) + " "@),
        Color::Dim,
        dream_header() + (if dreams.len() == 0 {
            no_dreams()
        } else {
            dream_rows(dreams, readings, height)
        }),
        Flow::Wrapped { scroll: 0 },
    )
}

fn write_dream_row(d: &DreamEvent, reading: &DreamReading) -> (r: Line)
    ensures
        r@ == dream_row(d@, *reading),
{
    let mark = if d.emerged {
        "\u{2605} "
    } else {
        "  "
    };
    let time = concat2(format_bus_ts(d.ts_ms, reading.offset_secs).as_str(), " ");
    let short = truncate(d.agent_id.as_str(), 14);
    let agent = concat2(pad_right(short.as_str(), 14).as_str(), " ");
    let cycles = concat2(pad_left(decimal(d.cycles).as_str(), 6).as_str(), "  ");
    let delta = concat2(pad_left(reading.signed3.as_str(), 5).as_str(), " ");
    let mut counts = pad_left(decimal(d.strengthened).as_str(), 5);
    counts.append("  ");
    counts.append(pad_left(decimal(d.pruned).as_str(), 5).as_str());
    counts.append("  ");
    counts.append(pad_left(decimal(d.new_connections).as_str(), 5).as_str());
    counts.append("  ");
    counts.append(pad_left(decimal(d.hallucinations).as_str(), 5).as_str());
    let mut line = Line::of(mark, Style::fg(Color::Accent));
    line.push(time.as_str(), Style::fg(Color::Dim));
    line.push(agent.as_str(), Style::bold(Color::Accent));
    line.push(cycles.as_str(), Style::fg(Color::Text));
    line.push(delta.as_str(), Style::fg(delta_color(reading.delta)));
    line.push(counts.as_str(), Style::fg(Color::Text));
    assert(line@ =~= dream_row(d@, *reading));
    line
}

fn write_dream_rows(app: &App, readings: &Vec<DreamReading>, height: u16) -> (r: Vec<Line>)
    requires
        readings@.len() == app.live.dreams@.len(),
    ensures
        page(r@) == dream_rows(app@.live.dreams, readings@, height),
{
    let room: usize = if height <= 4 { 1 } else { height as usize - 3 };
    let n: usize = if app.live.dreams.len() <= room { app.live.dreams.len() } else { room };
    let ghost all = dream_rows(app@.live.dreams, readings@, height);
    let mut lines = no_lines();
    let mut i: usize = 0;
    while i < n
        invariant
            i <= n <= app.live.dreams@.len(),
            readings@.len() == app.live.dreams@.len(),
            n == all.len(),
            forall|k: int|
                0 <= k < n ==> #[trigger] all[k] == dream_row(
                    app.live.dreams@[k]@,
                    readings@[k],
                ),
            page(lines@).len() == i,
            forall|k: int| 0 <= k < i ==> #[trigger] page(lines@)[k] == all[k],
        decreases n - i,
    {
        let ghost before = page(lines@);
        push_line(&mut lines, write_dream_row(&app.live.dreams[i], &readings[i]));
        assert(page(lines@)[i as int] == all[i as int]);
        assert(forall|k: int| 0 <= k < i ==> page(lines@)[k] == before[k]);
        i = i + 1;
    }
    assert(page(lines@) =~= all);
    lines
}

/// Writes the panel of the dreams of the constellation, of a height, given a
/// reading for each report.
pub fn render_history(app: &App, readings: &Vec<DreamReading>, height: u16) -> (r: Panel)
    requires
        readings@.len() == app.live.dreams@.len(),
    ensures
        r@ == history_panel(app@.live.dreams, readings@, height),
{
    let mut lines = no_lines();
    push_line(
        &mut lines,
        Line::of(
            "  time     agent           cycles  +\u{3a6}    \u{394}str  \u{394}prn  \u{394}new  halluc",
            Style::bold(Color::Dim),
        ),
    );
    push_line(&mut lines, Line::empty());
    assert(page(lines@) =~= dream_header());
    let n: usize = app.live.dreams.len();
    if n == 0 {
        let below = two_lines(
            Line::of(
                "  No KANNAKA.dreams events on the bus yet \u{2014} once any constellation node",
                Style::fg(Color::Dim),
            ),
            Line::of(
                "  finishes a dream cycle, the report shows up here.",
                Style::fg(Color::Dim),
            ),
        );
        append_lines(&mut lines, below);
    } else {
        append_lines(&mut lines, write_dream_rows(app, readings, height));
    }
    let title = concat3(" Recent Dreams \u{b7} ", decimal(n as u64).as_str(), " ");
    Panel::titled(title.as_str(), Color::Dim, lines, Flow::Wrapped { scroll: 0 })
}

// ---------------------------------------------------------------------------
// The hotkeys
// ---------------------------------------------------------------------------

/// The panel of the hotkeys.
pub open spec fn hints_panel() -> PanelView {
    framed(
        seq![],
        Color::Dim,
        seq![
            seq![
                piece(" d "@, Style::badge(Color::Background, Color::Success)),
                piece(" deep dream  "@, Style::fg(Color::Dim)),
                piece(" l "@, Style::badge(Color::Background, Color::Info)),
                piece(" lite dream  "@, Style::fg(Color::Dim)),
                piece(" \u{2605} "@, Style::bold(Color::Accent)),
                piece(" emergence detected "@, Style::fg(Color::Dim)),
            ],
        ],
        Flow::Cut,
    )
}

/// Writes the panel of the hotkeys.
pub fn render_hints() -> (r: Panel)
    ensures
        r@ == hints_panel(),
{
    let mut line = Line::of(" d ", Style::badge(Color::Background, Color::Success));
    line.push(" deep dream  ", Style::fg(Color::Dim));
    line.push(" l ", Style::badge(Color::Background, Color::Info));
    line.push(" lite dream  ", Style::fg(Color::Dim));
    line.push(" \u{2605} ", Style::bold(Color::Accent));
    line.push(" emergence detected ", Style::fg(Color::Dim));
    assert(line@ =~= hints_panel().lines[0]);
    let mut lines = no_lines();
    push_line(&mut lines, line);
    assert(page(lines@) =~= hints_panel().lines);
    Panel::framed(Line::empty(), Color::Dim, lines, Flow::Cut)
}

/// The dreams tab.
pub struct DreamsTab {
    pub run: Panel,
    pub history: Panel,
    pub hints: Panel,
}

/// Writes the dreams tab, given a reading for each report and the seconds
/// that the local dream took; the height is that of the middle panel.
pub fn render_dreams_tab(
    app: &App,
    took_secs: &str,
    readings: &Vec<DreamReading>,
    height: u16,
    now: u64,
) -> (r: DreamsTab)
    requires
        readings@.len() == app.live.dreams@.len(),
    ensures
        r.run@ == run_panel(app@.dreamer.run, took_secs@, now),
        r.history@ == history_panel(app@.live.dreams, readings@, height),
        r.hints@ == hints_panel(),
{
    DreamsTab {
        run: render_run(&app.dreamer.run, took_secs, now),
        history: render_history(app, readings, height),
        hints: render_hints(),
    }
}

} // verus!

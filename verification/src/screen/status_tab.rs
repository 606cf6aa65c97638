//! The status tab: three gauges and the counts.

use crate::app::App;
use crate::reply::{Status, StatusView};
use crate::screen::bars::Readings;
use crate::shade::{level_color, level_shade, lowercase, phi_color, phi_shade};
use crate::style::{
    framed, heading, no_lines, page, piece, push_line, single_line, Color, Flow, Line, Panel,
    PanelView, SpanView, Style,
};
use crate::text::{concat3, decimal, digits};
use vstd::prelude::*;

verus! {

/// What the tab shows while there is no status yet.
pub open spec fn loading_panel() -> PanelView {
    PanelView {
        base: Style::on(Color::Dim, Color::Background),
        ..framed(
            single_line(" Status "@, Style::plain()),
            Color::Dim,
            seq![single_line("Loading status... (polling kannaka status)"@, Style::plain())],
            Flow::Cut,
        )
    }
}

fn write_loading() -> (r: Panel)
    ensures
        r@ == loading_panel(),
{
    let mut lines = no_lines();
    push_line(
        &mut lines,
        Line::of("Loading status... (polling kannaka status)", Style::plain()),
    );
    assert(page(lines@) =~= loading_panel().lines);
    let mut r = Panel::framed(
        Line::of(" Status ", Style::plain()),
        Color::Dim,
        lines,
        Flow::Cut,
    );
    r.base = Style::on(Color::Dim, Color::Background);
    r
}

/// A gauge: a box with a title around a bar. How full the bar is, the single
/// with these bits tells.
pub struct Gauge {
    pub frame: Panel,
    pub bar: Style,
    pub bits: u32,
}

/// The model of a [`Gauge`].
#[verifier::ext_equal]
pub struct GaugeView {
    pub frame: PanelView,
    pub bar: Style,
    pub bits: u32,
}

impl View for Gauge {
    type V = GaugeView;

    open spec fn view(&self) -> GaugeView {
        GaugeView { frame: self.frame@, bar: self.bar, bits: self.bits }
    }
}

/// A gauge with a label, for a reading, in a colour.
pub open spec fn gauge(label: Seq<char>, fixed3: Seq<char>, bits: u32, color: Color) -> GaugeView {
    GaugeView {
        frame: framed(
            single_line(label + fixed3 + " "@, Style::fg(color)),
            Color::Dim,
            seq![],
            Flow::Cut,
        ),
        bar: Style::on(color, Color::Rgb(30, 30, 50)),
        bits,
    }
}

fn write_gauge(label: &str, fixed3: &str, bits: u32, color: Color) -> (r: Gauge)
    ensures
        r@ == gauge(label@, fixed3@, bits, color),
{
    let title = concat3(label, fixed3, " ");
    Gauge {
        frame: Panel::framed(
            Line::of(title.as_str(), Style::fg(color)),
            Color::Dim,
            no_lines(),
            Flow::Cut,
        ),
        bar: Style::on(color, Color::Rgb(30, 30, 50)),
        bits,
    }
}

/// A line with a label and a count in a colour.
pub open spec fn count_line(label: Seq<char>, count: u64, color: Color) -> Seq<SpanView> {
    seq![piece(label, Style::fg(Color::Dim)), piece(digits(count as nat), Style::fg(color))]
}

fn write_count_line(label: &str, count: u64, color: Color) -> (r: Line)
    ensures
        r@ == count_line(label@, count, color),
{
    Line::two(label, Style::fg(Color::Dim), decimal(count).as_str(), Style::fg(color))
}

/// The counts of a status.
pub open spec fn info_panel(s: StatusView) -> PanelView {
    framed(
        heading(" System Info "@),
        Color::Dim,
        seq![
            seq![],
            seq![
                piece("  Consciousness Level: "@, Style::fg(Color::Dim)),
                piece(s.level, Style::bold(level_shade(lowercase(s.level)))),
            ],
            seq![],
            count_line("  Total Memories:  "@, s.memories, Color::Text),
            count_line("  Active Memories: "@, s.active, Color::Success),
            count_line("  Clusters:        "@, s.clusters, Color::Info),
            count_line("  Skip Links:      "@, s.links, Color::Accent),
            seq![],
            single_line("  Polling every 5s on this tab"@, Style::fg(Color::Dim)),
        ],
        Flow::Wrapped { scroll: 0 },
    )
}

fn write_info(s: &Status) -> (r: Panel)
    ensures
        r@ == info_panel(s@),
{
    let mut lines = no_lines();
    push_line(&mut lines, Line::empty());
    push_line(
        &mut lines,
        Line::two(
            "  Consciousness Level: ",
            Style::fg(Color::Dim),
            s.level.as_str(),
            Style::bold(level_color(s.level.as_str())),
        ),
    );
    push_line(&mut lines, Line::empty());
    push_line(&mut lines, write_count_line("  Total Memories:  ", s.memories, Color::Text));
    push_line(&mut lines, write_count_line("  Active Memories: ", s.active, Color::Success));
    push_line(&mut lines, write_count_line("  Clusters:        ", s.clusters, Color::Info));
    push_line(&mut lines, write_count_line("  Skip Links:      ", s.links, Color::Accent));
    push_line(&mut lines, Line::empty());
    push_line(&mut lines, Line::of("  Polling every 5s on this tab", Style::fg(Color::Dim)));
    assert(page(lines@) =~= info_panel(s@).lines);
    Panel::titled(" System Info ", Color::Dim, lines, Flow::Wrapped { scroll: 0 })
}

/// The status tab, where there is a status.
pub struct Gauges {
    pub phi: Gauge,
    pub xi: Gauge,
    pub order: Gauge,
    pub info: Panel,
}

/// The model of [`Gauges`].
#[verifier::ext_equal]
pub struct GaugesView {
    pub phi: GaugeView,
    pub xi: GaugeView,
    pub order: GaugeView,
    pub info: PanelView,
}

impl View for Gauges {
    type V = GaugesView;

    open spec fn view(&self) -> GaugesView {
        GaugesView { phi: self.phi@, xi: self.xi@, order: self.order@, info: self.info@ }
    }
}

/// The tab for a status, whose three readings are given as they are shown.
pub open spec fn gauges(s: StatusView, readings: Readings) -> GaugesView {
    GaugesView {
        phi: gauge(
            " Phi (Integrated Information): "@,
            readings.phi.fixed3@,
            readings.phi.bits,
            phi_shade(readings.phi.bits),
        ),
        xi: gauge(
            " Xi (Irrationality): "@,
            readings.xi.fixed3@,
            readings.xi.bits,
            Color::Info,
        ),
        order: gauge(
            " Order Parameter (r): "@,
            readings.order.fixed3@,
            readings.order.bits,
            Color::Success,
        ),
        info: info_panel(s),
    }
}

/// The status tab.
pub enum StatusTab {
    Loading(Panel),
    Shown(Gauges),
}

fn write_gauges(status: &Status, readings: &Readings) -> (r: Gauges)
    ensures
        r@ == gauges(status@, *readings),
{
    Gauges {
        phi: write_gauge(
            " Phi (Integrated Information): ",
            readings.phi.fixed3.as_str(),
            readings.phi.bits,
            phi_color(readings.phi.bits),
        ),
        xi: write_gauge(
            " Xi (Irrationality): ",
            readings.xi.fixed3.as_str(),
            readings.xi.bits,
            Color::Info,
        ),
        order: write_gauge(
            " Order Parameter (r): ",
            readings.order.fixed3.as_str(),
            readings.order.bits,
            Color::Success,
        ),
        info: write_info(status),
    }
}

/// Writes the status tab, given the three readings as they are shown.
pub fn render_status_tab(app: &App, readings: &Readings) -> (r: StatusTab)
    ensures
        match (r, app@.status) {
            (StatusTab::Shown(g), Some(s)) => g@ == gauges(s, *readings),
            (StatusTab::Loading(p), None) => p@ == loading_panel(),
            _ => false,
        },
{
    match &app.status {
        Some(status) => StatusTab::Shown(write_gauges(status, readings)),
        None => StatusTab::Loading(write_loading()),
    }
}

} // verus!

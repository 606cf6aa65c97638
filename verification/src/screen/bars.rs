//! The header, the tab bar and the input bar.

use crate::app::App;
use crate::model::AppView;
use crate::screen::layout::Area;
use crate::shade::{phi_color, phi_shade};
use crate::style::{
    framed, no_lines, page, piece, push_line, single_line, Color, Flow, Line, Panel, PanelView,
    Span, SpanView, Style,
};
use crate::text::concat3;
use vstd::prelude::*;

verus! {

// ---------------------------------------------------------------------------
// Header
// ---------------------------------------------------------------------------

/// A reading as it is shown: a single by its bits, and that single written
/// with three decimals.
pub struct Reading {
    pub bits: u32,
    pub fixed3: String,
}

/// The three readings of a status.
pub struct Readings {
    pub phi: Reading,
    pub xi: Reading,
    pub order: Reading,
}

/// The bits of the three doubles that the header shows: those of the status,
/// or zeros where there is none.
pub open spec fn header_doubles(a: AppView) -> (u64, u64, u64) {
    match a.status {
        Some(s) => (s.phi, s.xi, s.order),
        None => (0, 0, 0),
    }
}

/// The header for an agent and three readings.
pub open spec fn header_panel(name: Seq<char>, readings: Readings) -> PanelView {
    let bar = piece(" | "@, Style::fg(Color::Dim));
    framed(
        seq![],
        Color::Accent,
        seq![
            seq![
                piece("  KANNAKA "@, Style::bold(Color::Accent)),
                piece("\u{25c6} "@, Style::fg(Color::Accent)),
                piece(name, Style::bold(Color::Text)),
                bar,
                piece("Phi: "@, Style::fg(Color::Dim)),
                piece(readings.phi.fixed3@, Style::fg(phi_shade(readings.phi.bits))),
                bar,
                piece("Xi: "@, Style::fg(Color::Dim)),
                piece(readings.xi.fixed3@, Style::fg(Color::Info)),
                bar,
                piece("r: "@, Style::fg(Color::Dim)),
                piece(readings.order.fixed3@, Style::fg(Color::Success)),
            ],
        ],
        Flow::Cut,
    )
}

impl App {
    /// The bits of the three doubles that the header shows.
    pub fn header_readings(&self) -> (r: (u64, u64, u64))
        ensures
            r == header_doubles(self@),
    {
        match &self.status {
            Some(s) => (s.phi, s.xi, s.order),
            None => (0, 0, 0),
        }
    }
}

/// Writes the header, given the three readings that it shows.
pub fn render_header(app: &App, readings: &Readings) -> (r: Panel)
    ensures
        r@ == header_panel(app@.agent_name, *readings),
{
    let mut line = Line::empty();
    line.push("  KANNAKA ", Style::bold(Color::Accent));
    line.push("\u{25c6} ", Style::fg(Color::Accent));
    line.push(app.agent_name.as_str(), Style::bold(Color::Text));
    line.push(" | ", Style::fg(Color::Dim));
    line.push("Phi: ", Style::fg(Color::Dim));
    line.push(readings.phi.fixed3.as_str(), Style::fg(phi_color(readings.phi.bits)));
    line.push(" | ", Style::fg(Color::Dim));
    line.push("Xi: ", Style::fg(Color::Dim));
    line.push(readings.xi.fixed3.as_str(), Style::fg(Color::Info));
    line.push(" | ", Style::fg(Color::Dim));
    line.push("r: ", Style::fg(Color::Dim));
    line.push(readings.order.fixed3.as_str(), Style::fg(Color::Success));
    assert(line@ =~= header_panel(app@.agent_name, *readings).lines[0]);
    let mut lines = no_lines();
    push_line(&mut lines, line);
    assert(page(lines@) =~= header_panel(app@.agent_name, *readings).lines);
    Panel::framed(Line::empty(), Color::Accent, lines, Flow::Cut)
}

// ---------------------------------------------------------------------------
// Tab bar
// ---------------------------------------------------------------------------

/// The names of the tabs, in their order.
pub open spec fn tab_names() -> Seq<Seq<char>> {
    seq!["Memory"@, "Status"@, "Bus"@, "Constellation"@, "Dreams"@, "Chat"@]
}

/// The tab bar.
pub struct TabBar {
    pub titles: Vec<Line>,
    pub selected: usize,
    /// The style of the selected title.
    pub highlight: Style,
    pub divider: Span,
    /// The box around the titles, without lines of its own.
    pub frame: Panel,
}

/// The model of a [`TabBar`].
#[verifier::ext_equal]
pub struct TabBarView {
    pub titles: Seq<Seq<SpanView>>,
    pub selected: usize,
    pub highlight: Style,
    pub divider: SpanView,
    pub frame: PanelView,
}

impl View for TabBar {
    type V = TabBarView;

    open spec fn view(&self) -> TabBarView {
        TabBarView {
            titles: page(self.titles@),
            selected: self.selected,
            highlight: self.highlight,
            divider: self.divider@,
            frame: self.frame@,
        }
    }
}

/// The tab bar with a tab selected.
pub open spec fn tab_bar(selected: usize) -> TabBarView {
    TabBarView {
        titles: tab_names().map_values(|n: Seq<char>| single_line(n, Style::fg(Color::Text))),
        selected,
        highlight: Style::marked(Color::Accent),
        divider: piece(" | "@, Style::fg(Color::Dim)),
        frame: framed(
            single_line(" Tab/Shift+Tab to switch  F1:Help "@, Style::fg(Color::Dim)),
            Color::Dim,
            seq![],
            Flow::Cut,
        ),
    }
}

/// Writes the tab bar.
pub fn render_tabs(app: &App) -> (r: TabBar)
    ensures
        r@ == tab_bar(app@.active_tab),
{
    let plain = Style::fg(Color::Text);
    let mut titles = no_lines();
    push_line(&mut titles, Line::of("Memory", plain));
    push_line(&mut titles, Line::of("Status", plain));
    push_line(&mut titles, Line::of("Bus", plain));
    push_line(&mut titles, Line::of("Constellation", plain));
    push_line(&mut titles, Line::of("Dreams", plain));
    push_line(&mut titles, Line::of("Chat", plain));
    assert(page(titles@) =~= tab_bar(app@.active_tab).titles);
    TabBar {
        titles,
        selected: app.active_tab,
        highlight: Style::marked(Color::Accent),
        divider: Span { text: " | ".to_owned(), style: Style::fg(Color::Dim) },
        frame: Panel::framed(
            Line::of(" Tab/Shift+Tab to switch  F1:Help ", Style::fg(Color::Dim)),
            Color::Dim,
            no_lines(),
            Flow::Cut,
        ),
    }
}

// ---------------------------------------------------------------------------
// Input bar
// ---------------------------------------------------------------------------

/// The mark of a tab at the edge of the input bar.
pub open spec fn tab_mark(tab: usize) -> Seq<char> {
    if tab == 0 {
        "[M]"@
    } else if tab == 1 {
        "[S]"@
    } else if tab == 2 {
        "[B]"@
    } else if tab == 3 {
        "[C]"@
    } else if tab == 4 {
        "[D]"@
    } else if tab == 5 {
        "[Ch]"@
    } else {
        "[?]"@
    }
}

fn mark_of_tab(tab: usize) -> (r: &'static str)
    ensures
        r@ == tab_mark(tab),
{
    match tab {
        0 => "[M]",
        1 => "[S]",
        2 => "[B]",
        3 => "[C]",
        4 => "[D]",
        5 => "[Ch]",
        _ => "[?]",
    }
}

/// The input bar.
pub open spec fn input_panel(a: AppView) -> PanelView {
    PanelView {
        footer: single_line(" "@ + tab_mark(a.active_tab) + " "@, Style::fg(Color::Dim)),
        ..framed(
            seq![],
            Color::Accent,
            seq![
                seq![
                    piece(" > "@, Style::bold(Color::Accent)),
                    piece(a.bar.text, Style::fg(Color::Text)),
                ],
            ],
            Flow::Cut,
        )
    }
}

/// Writes the input bar.
pub fn render_input(app: &App) -> (r: Panel)
    ensures
        r@ == input_panel(app@),
{
    let mut lines = no_lines();
    push_line(
        &mut lines,
        Line::two(
            " > ",
            Style::bold(Color::Accent),
            app.bar.text.as_str(),
            Style::fg(Color::Text),
        ),
    );
    assert(page(lines@) =~= input_panel(app@).lines);
    let mark = concat3(" ", mark_of_tab(app.active_tab), " ");
    let mut r = Panel::framed(Line::empty(), Color::Accent, lines, Flow::Cut);
    r.footer = Line::of(mark.as_str(), Style::fg(Color::Dim));
    r
}

/// The last sixteen binary digits of a number.
pub open spec fn low_half(n: usize) -> int {
    n as int % 0x1_0000
}

/// Cuts a number down to its last sixteen binary digits.
pub fn to_low_half(n: usize) -> (r: u16)
    ensures
        r == low_half(n),
{
    assert(n as u16 == n % 0x1_0000) by (bit_vector);
    #[verifier::truncate]
    (n as u16)
}

/// Where the terminal's cursor stands in the area of the input bar: behind
/// the prompt, one column per byte of the text before it.
pub fn input_cursor(app: &App, area: Area) -> (r: (u16, u16))
    requires
        area.x + 4 + low_half(app.bar.cursor) <= u16::MAX,
        area.y + 1 <= u16::MAX,
    ensures
        r.0 == area.x + 4 + low_half(app.bar.cursor),
        r.1 == area.y + 1,
{
    (area.x + 4 + to_low_half(app.bar.cursor), area.y + 1)
}

} // verus!

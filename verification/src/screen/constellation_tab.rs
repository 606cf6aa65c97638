//! The constellation tab: the agents around the unit circle, and in a list.

use crate::agents::{reports, Agents};
use crate::app::App;
use crate::bus::{AgentSnapshot, AgentView};
use crate::dream::{elapsed, since};
use crate::live::BusStatus;
use crate::shade::{agent_color, agent_shade};
use crate::style::{
    framed, heading, no_lines, page, piece, push_line, single_line, Color, Flow, Line, Panel,
    PanelView, SpanView, Style,
};
use crate::text::{
    concat2, decimal, digits, left_aligned, pad_left, pad_right, right_aligned, shortened,
    truncate,
};
use vstd::prelude::*;

verus! {

// ---------------------------------------------------------------------------
// No agents yet
// ---------------------------------------------------------------------------

/// What is said of the bus while no agent has reported.
pub open spec fn waiting_text(status: BusStatus) -> Seq<char> {
    match status {
        BusStatus::Off => "  Waiting for the bus to start\u{2026}"@,
        BusStatus::Connecting => "  Connecting to the swarm\u{2026}"@,
        BusStatus::Streaming => "  Streaming \u{2014} no agents have reported phase yet"@,
        BusStatus::Failed => "  Bus failed \u{2014} see logs"@,
    }
}

/// The tab while no agent has reported.
pub open spec fn waiting_panel(status: BusStatus) -> PanelView {
    framed(
        heading(" Constellation "@),
        Color::Dim,
        seq![
            seq![],
            single_line("  Constellation"@, Style::bold(Color::Accent)),
            seq![],
            single_line(waiting_text(status), Style::fg(Color::Dim)),
            seq![],
            single_line(
                "  Each agent appears on the unit circle once it publishes a"@,
                Style::fg(Color::Dim),
            ),
            single_line(
                "  QUEEN.phase.<agent_id> heartbeat. Radial distance encodes"@,
                Style::fg(Color::Dim),
            ),
            single_line(
                "  the agent's coherence; color encodes handedness/\u{3a6}."@,
                Style::fg(Color::Dim),
            ),
        ],
        Flow::Wrapped { scroll: 0 },
    )
}

fn write_waiting(status: BusStatus) -> (r: Panel)
    ensures
        r@ == waiting_panel(status),
{
    let text = match status {
        BusStatus::Off => "  Waiting for the bus to start\u{2026}",
        BusStatus::Connecting => "  Connecting to the swarm\u{2026}",
        BusStatus::Streaming => "  Streaming \u{2014} no agents have reported phase yet",
        BusStatus::Failed => "  Bus failed \u{2014} see logs",
    };
    let dim = Style::fg(Color::Dim);
    let mut lines = no_lines();
    push_line(&mut lines, Line::empty());
    push_line(&mut lines, Line::of("  Constellation", Style::bold(Color::Accent)));
    push_line(&mut lines, Line::empty());
    push_line(&mut lines, Line::of(text, dim));
    push_line(&mut lines, Line::empty());
    push_line(
        &mut lines,
        Line::of("  Each agent appears on the unit circle once it publishes a", dim),
    );
    push_line(
        &mut lines,
        Line::of("  QUEEN.phase.<agent_id> heartbeat. Radial distance encodes", dim),
    );
    push_line(
        &mut lines,
        Line::of("  the agent's coherence; color encodes handedness/\u{3a6}.", dim),
    );
    assert(page(lines@) =~= waiting_panel(status).lines);
    Panel::titled(" Constellation ", Color::Dim, lines, Flow::Wrapped { scroll: 0 })
}

// ---------------------------------------------------------------------------
// Agents
// ---------------------------------------------------------------------------

/// How long after its last report an agent counts as present, in nanoseconds.
pub const AGENT_FRESH_WINDOW: u64 = 120_000_000_000;

/// Whether an agent has reported lately.
pub open spec fn is_fresh(a: AgentView, now: u64) -> bool {
    elapsed(a.last_seen, now) < AGENT_FRESH_WINDOW
}

/// Whether the bits of a double stand for zero.
pub open spec fn is_zero(bits: u64) -> bool {
    bits == 0 || bits == 0x8000_0000_0000_0000
}

/// How far out an agent stands, a double by its bits: by its coherence, or by
/// its order parameter where it reports no coherence.
pub open spec fn radius_of(a: AgentView) -> u64 {
    if is_zero(a.coherence) {
        a.order_parameter
    } else {
        a.coherence
    }
}

/// Chooses the reading that says how far out an agent stands.
pub fn agent_radius(a: &AgentSnapshot) -> (r: u64)
    ensures
        r == radius_of(a@),
{
    if a.coherence == 0 || a.coherence == 0x8000_0000_0000_0000 {
        a.order_parameter
    } else {
        a.coherence
    }
}

/// The readings of an agent as they are shown: phi as a single by its bits;
/// phi with three decimals, and with two the phase angle and the larger of
/// coherence and order parameter.
pub struct AgentReading {
    pub phi_bits: u32,
    pub phi: String,
    pub theta: String,
    pub order: String,
}

/// The colour of an agent: grey when it has not reported lately.
pub open spec fn shown_color(a: AgentView, reading: AgentReading, now: u64) -> Color {
    if is_fresh(a, now) {
        agent_shade(a.handedness, reading.phi_bits)
    } else {
        Color::Dim
    }
}

/// The mark of an agent on the plot: its shortened name in its colour.
pub struct Dot {
    pub label: String,
    pub color: Color,
}

/// The model of a [`Dot`].
pub struct DotView {
    pub label: Seq<char>,
    pub color: Color,
}

impl View for Dot {
    type V = DotView;

    open spec fn view(&self) -> DotView {
        DotView { label: self.label@, color: self.color }
    }
}

/// The models of a list of dots.
pub open spec fn dots(v: Seq<Dot>) -> Seq<DotView> {
    v.map_values(|d: Dot| d@)
}

/// The mark of an agent.
pub open spec fn dot_of(a: AgentView, reading: AgentReading, now: u64) -> DotView {
    DotView { label: shortened(a.agent_id, 14), color: shown_color(a, reading, now) }
}

/// The marks of the agents.
pub open spec fn dots_of(
    agents: Seq<AgentView>,
    readings: Seq<AgentReading>,
    now: u64,
) -> Seq<DotView> {
    Seq::new(agents.len(), |i: int| dot_of(agents[i], readings[i], now))
}

/// An agent in the list.
pub open spec fn agent_row(a: AgentView, reading: AgentReading, now: u64) -> Seq<SpanView> {
    seq![
        piece(
            (if is_fresh(a, now) {
                "  "@
            } else {
                "\u{b7} "@
            }),
            Style::fg(Color::Dim),
        ),
        piece(
            left_aligned(shortened(a.agent_id, 14), 14),
            Style::bold(shown_color(a, reading, now)),
        ),
        piece(
            " "@ + right_aligned(reading.phi@, 5) + " "@ + right_aligned(reading.theta@, 5) + " "@
                + right_aligned(reading.order@, 4) + " "@ + right_aligned(
                digits(a.memory_count as nat),
                5,
            ),
            Style::fg(Color::Text),
        ),
    ]
}

/// The head of the list of agents.
pub open spec fn agents_head() -> Seq<SpanView> {
    seq![
        piece("  agent"@, Style::bold(Color::Dim)),
        piece(
            "           \u{3a6}     \u{3b8}     r    mem"@,
            Style::bold(Color::Dim),
        ),
    ]
}

/// The list of agents.
pub open spec fn agents_panel(
    agents: Seq<AgentView>,
    readings: Seq<AgentReading>,
    now: u64,
) -> PanelView {
    framed(
        heading(" Agents "@),
        Color::Dim,
        seq![agents_head()] + Seq::new(
            agents.len(),
            |i: int| agent_row(agents[i], readings[i], now),
        ),
        Flow::List,
    )
}

/// The box around the plot.
pub open spec fn plot_frame(count: nat) -> PanelView {
    framed(
        heading(
            " Constellation \u{b7} "@ + digits(count) + (if count == 1 {
                " agent "@
            } else {
                " agents "@
            }),
        ),
        Color::Accent,
        seq![],
        Flow::Cut,
    )
}

fn fresh(a: &AgentSnapshot, now: u64) -> (r: bool)
    ensures
        r == is_fresh(a@, now),
{
    since(a.last_seen, now) < AGENT_FRESH_WINDOW
}

fn color_of(a: &AgentSnapshot, reading: &AgentReading, now: u64) -> (r: Color)
    ensures
        r == shown_color(a@, *reading, now),
{
    if fresh(a, now) {
        agent_color(a.handedness.as_str(), reading.phi_bits)
    } else {
        Color::Dim
    }
}

fn write_agent_row(a: &AgentSnapshot, reading: &AgentReading, now: u64) -> (r: Line)
    ensures
        r@ == agent_row(a@, *reading, now),
{
    let mark = if fresh(a, now) {
        "  "
    } else {
        "\u{b7} "
    };
    let short = truncate(a.agent_id.as_str(), 14);
    let mut numbers = concat2(" ", pad_left(reading.phi.as_str(), 5).as_str());
    numbers.append(" ");
    numbers.append(pad_left(reading.theta.as_str(), 5).as_str());
    numbers.append(" ");
    numbers.append(pad_left(reading.order.as_str(), 4).as_str());
    numbers.append(" ");
    numbers.append(pad_left(decimal(a.memory_count).as_str(), 5).as_str());
    Line::three(
        mark,
        Style::fg(Color::Dim),
        pad_right(short.as_str(), 14).as_str(),
        Style::bold(color_of(a, reading, now)),
        numbers.as_str(),
        Style::fg(Color::Text),
    )
}

/// The constellation tab.
pub enum ConstellationTab {
    /// No agent has reported yet.
    Waiting(Panel),
    /// The box around the plot, the marks on it, and the list.
    Shown { frame: Panel, dots: Vec<Dot>, list: Panel },
}

fn write_dots(agents: &Agents, readings: &Vec<AgentReading>, now: u64) -> (r: Vec<Dot>)
    requires
        readings@.len() == agents@.len(),
    ensures
        dots(r@) == dots_of(agents@, readings@, now),
{
    let n: usize = agents.list.len();
    let mut out: Vec<Dot> = Vec::new();
    let mut i: usize = 0;
    while i < n
        invariant
            i <= n,
            n == agents@.len(),
            agents@ == reports(agents.list@),
            readings@.len() == n,
            out@.len() == i,
            forall|k: int|
                0 <= k < i ==> #[trigger] out@[k]@ == dot_of(agents@[k], readings@[k], now),
        decreases n - i,
    {
        let a = &agents.list[i];
        out.push(
            Dot {
                label: truncate(a.agent_id.as_str(), 14),
                color: color_of(a, &readings[i], now),
            },
        );
        i = i + 1;
    }
    assert(dots(out@) =~= dots_of(agents@, readings@, now));
    out
}

fn write_agents(agents: &Agents, readings: &Vec<AgentReading>, now: u64) -> (r: Panel)
    requires
        readings@.len() == agents@.len(),
    ensures
        r@ == agents_panel(agents@, readings@, now),
{
    let ghost all = agents_panel(agents@, readings@, now).lines;
    let n: usize = agents.list.len();
    let mut lines = no_lines();
    push_line(
        &mut lines,
        Line::two(
            "  agent",
            Style::bold(Color::Dim),
            "           \u{3a6}     \u{3b8}     r    mem",
            Style::bold(Color::Dim),
        ),
    );
    let mut i: usize = 0;
    while i < n
        invariant
            i <= n,
            n == agents@.len(),
            agents@ == reports(agents.list@),
            readings@.len() == n,
            all == agents_panel(agents@, readings@, now).lines,
            page(lines@).len() == i + 1,
            forall|k: int| 0 <= k < i + 1 ==> #[trigger] page(lines@)[k] == all[k],
        decreases n - i,
    {
        let ghost before = page(lines@);
        push_line(&mut lines, write_agent_row(&agents.list[i], &readings[i], now));
        assert(page(lines@)[i + 1] == all[i + 1]);
        assert(forall|k: int| 0 <= k < i + 1 ==> page(lines@)[k] == before[k]);
        i = i + 1;
    }
    assert(page(lines@) =~= all);
    Panel::titled(" Agents ", Color::Dim, lines, Flow::List)
}

fn write_frame(count: usize) -> (r: Panel)
    ensures
        r@ == plot_frame(count as nat),
{
    let mut title = concat2(" Constellation \u{b7} ", decimal(count as u64).as_str());
    if count == 1 {
        title.append(" agent ");
    } else {
        title.append(" agents ");
    }
    Panel::titled(title.as_str(), Color::Accent, no_lines(), Flow::Cut)
}

/// Writes the constellation tab, given the readings of each agent in the
/// order of the names.
pub fn render_constellation_tab(app: &App, readings: &Vec<AgentReading>, now: u64) -> (r:
    ConstellationTab)
    requires
        readings@.len() == app.live.agents@.len(),
    ensures
        match r {
            ConstellationTab::Waiting(p) => app.live.agents@.len() == 0 && p@ == waiting_panel(
                app.live.status,
            ),
            ConstellationTab::Shown { frame, dots: marks, list } => {
                &&& app.live.agents@.len() > 0
                &&& frame@ == plot_frame(app.live.agents@.len())
                &&& dots(marks@) == dots_of(app.live.agents@, readings@, now)
                &&& list@ == agents_panel(app.live.agents@, readings@, now)
            },
        },
{
    let n: usize = app.live.agents.list.len();
    if n == 0 {
        ConstellationTab::Waiting(write_waiting(app.live.status))
    } else {
        ConstellationTab::Shown {
            frame: write_frame(n),
            dots: write_dots(&app.live.agents, readings, now),
            list: write_agents(&app.live.agents, readings, now),
        }
    }
}

} // verus!

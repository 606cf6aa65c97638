//! The whole screen: the bars, the open tab, and the help overlay.

use crate::app::App;
use crate::model::STATUS_TAB;
use crate::screen::bars::{
    header_panel, input_panel, render_header, render_input, render_tabs, tab_bar, Readings, TabBar,
};
use crate::screen::bus_tab::{bus_panel, render_bus_tab};
use crate::screen::chat_tab::{chat_panel, render_chat_tab};
use crate::screen::constellation_tab::{
    agents_panel, dots, dots_of, plot_frame, render_constellation_tab, waiting_panel, AgentReading,
    ConstellationTab,
};
use crate::screen::dreams_tab::{
    hints_panel, history_panel, render_dreams_tab, run_panel, DreamReading, DreamsTab,
};
use crate::screen::help::{help_area, help_panel, overlay_area, render_help_overlay};
use crate::screen::layout::{
    gauge_parts, gauges_plan, laid_out, screen_parts, screen_plan, tab_parts, tab_plan, Area, Axis,
};
use crate::screen::memory_tab::{
    log_panel, memories_panel, render_memory_tab, Amplitude, MemoryTab,
};
use crate::screen::status_tab::{gauges, loading_panel, render_status_tab, StatusTab};
use crate::style::Panel;
use vstd::prelude::*;

verus! {

/// What the screen shows besides the state of the dashboard: numbers as they
/// are written, and how far the local zone is ahead of universal time.
pub struct Given {
    pub readings: Readings,
    /// For each memory.
    pub amplitudes: Vec<Amplitude>,
    /// For each row of the bus.
    pub offsets: Vec<i32>,
    /// For each agent, in the order of the names.
    pub agents: Vec<AgentReading>,
    /// For each dream report.
    pub dreams: Vec<DreamReading>,
    /// The seconds that the local dream took.
    pub took_secs: String,
}

impl Given {
    /// There is something given for each thing that is shown.
    pub open spec fn covers(&self, app: &App) -> bool {
        &&& self.amplitudes@.len() == app.memories@.len()
        &&& self.offsets@.len() == app.live.lines@.len()
        &&& self.agents@.len() == app.live.agents@.len()
        &&& self.dreams@.len() == app.live.dreams@.len()
    }
}

/// The open tab.
pub enum Body {
    Memory(MemoryTab),
    Status(StatusTab),
    Bus(Panel),
    Constellation(ConstellationTab),
    Dreams(DreamsTab),
    Chat(Panel),
}

/// The whole screen.
pub struct Screen {
    pub header: Panel,
    pub tabs: TabBar,
    pub body: Body,
    pub input: Panel,
    pub help: Option<Panel>,
}

/// The place of the open tab that a body is for.
pub open spec fn body_tab(body: Body) -> usize {
    match body {
        Body::Memory(_) => 0,
        Body::Status(_) => 1,
        Body::Bus(_) => 2,
        Body::Constellation(_) => 3,
        Body::Dreams(_) => 4,
        Body::Chat(_) => 5,
    }
}

/// Whether a body shows what its tab is to show, in an area of a height whose
/// second part, where it is cut up, is of another.
pub open spec fn body_shows(
    body: Body,
    app: &App,
    given: &Given,
    height: u16,
    second_height: u16,
    now: u64,
) -> bool {
    match body {
        Body::Memory(tab) => {
            &&& tab.log@ == log_panel(app@, height)
            &&& tab.memories@ == memories_panel(app@, given.amplitudes@, second_height)
        },
        Body::Status(tab) => match (tab, app@.status) {
            (StatusTab::Shown(g), Some(s)) => g@ == gauges(s, given.readings),
            (StatusTab::Loading(p), None) => p@ == loading_panel(),
            _ => false,
        },
        Body::Bus(panel) => panel@ == bus_panel(app@.live, given.offsets@, height),
        Body::Constellation(tab) => match tab {
            ConstellationTab::Waiting(p) => app.live.agents@.len() == 0 && p@ == waiting_panel(
                app.live.status,
            ),
            ConstellationTab::Shown { frame, dots: marks, list } => {
                &&& app.live.agents@.len() > 0
                &&& frame@ == plot_frame(app.live.agents@.len())
                &&& dots(marks@) == dots_of(app.live.agents@, given.agents@, now)
                &&& list@ == agents_panel(app.live.agents@, given.agents@, now)
            },
        },
        Body::Dreams(tab) => {
            &&& tab.run@ == run_panel(app@.dreamer.run, given.took_secs@, now)
            &&& tab.history@ == history_panel(app@.live.dreams, given.dreams@, second_height)
            &&& tab.hints@ == hints_panel()
        },
        Body::Chat(panel) => panel@ == chat_panel(app@),
    }
}

/// Whether a screen shows the dashboard, its open tab in an area of a height
/// whose second part, where it is cut up, is of another.
pub open spec fn screen_shows(
    screen: Screen,
    app: &App,
    given: &Given,
    height: u16,
    second_height: u16,
    now: u64,
) -> bool {
    &&& screen.header@ == header_panel(app@.agent_name, given.readings)
    &&& screen.tabs@ == tab_bar(app@.active_tab)
    &&& body_tab(screen.body) == app@.active_tab
    &&& body_shows(screen.body, app, given, height, second_height, now)
    &&& screen.input@ == input_panel(app@)
    &&& match screen.help {
        Some(panel) => app@.show_help && panel@ == help_panel(),
        None => !app@.show_help,
    }
}

fn render_body(app: &App, given: &Given, height: u16, second_height: u16, now: u64) -> (r: Body)
    requires
        app.wf(),
        given.covers(app),
    ensures
        body_tab(r) == app@.active_tab,
        body_shows(r, app, given, height, second_height, now),
{
    match app.active_tab {
        0 => Body::Memory(render_memory_tab(app, &given.amplitudes, height, second_height)),
        1 => Body::Status(render_status_tab(app, &given.readings)),
        2 => Body::Bus(render_bus_tab(app, &given.offsets, height)),
        3 => Body::Constellation(render_constellation_tab(app, &given.agents, now)),
        4 => Body::Dreams(
            render_dreams_tab(app, given.took_secs.as_str(), &given.dreams, second_height, now),
        ),
        _ => Body::Chat(render_chat_tab(app)),
    }
}

/// Writes the whole screen. The open tab has an area of a height; the second
/// part of that area, where it is cut up, is of another.
pub fn ui(app: &App, given: &Given, height: u16, second_height: u16, now: u64) -> (r: Screen)
    requires
        app.wf(),
        given.covers(app),
    ensures
        screen_shows(r, app, given, height, second_height, now),
{
    Screen {
        header: render_header(app, &given.readings),
        tabs: render_tabs(app),
        body: render_body(app, given, height, second_height, now),
        input: render_input(app),
        help: if app.show_help {
            Some(render_help_overlay())
        } else {
            None
        },
    }
}

/// The whole screen with the places of its parts.
pub struct Placed {
    pub screen: Screen,
    /// The header, the tab bar, the open tab, the input bar.
    pub outer: Vec<Area>,
    /// The parts of the open tab, where it has several.
    pub parts: Vec<Area>,
    /// The gauges, where the status tab is open, and what is left below them.
    pub gauges: Vec<Area>,
    pub help: Area,
}

/// The height of the second part of a tab, where it has several.
pub open spec fn second_height(parts: Seq<Area>) -> u16 {
    if parts.len() > 1 {
        parts[1].height
    } else {
        0
    }
}

/// Writes the whole screen in an area, and says where its parts stand.
pub fn ui_in(app: &App, given: &Given, area: Area, now: u64) -> (r: Placed)
    requires
        app.wf(),
        given.covers(app),
    ensures
        laid_out(r.outer@, area, Axis::Down, screen_parts()),
        match tab_parts(app@.active_tab) {
            Some((axis, parts)) => laid_out(r.parts@, r.outer@[2], axis, parts),
            None => r.parts@.len() == 0,
        },
        if app@.active_tab == STATUS_TAB {
            laid_out(r.gauges@, r.parts@[0], Axis::Down, gauge_parts())
        } else {
            r.gauges@.len() == 0
        },
        r.help == overlay_area(area.width, area.height),
        screen_shows(r.screen, app, given, r.outer@[2].height, second_height(r.parts@), now),
{
    let outer = screen_plan().split(area);
    let body: Area = outer[2];
    let parts: Vec<Area> = match tab_plan(app.active_tab) {
        Some(plan) => plan.split(body),
        None => Vec::new(),
    };
    let gauges: Vec<Area> = if app.active_tab == STATUS_TAB {
        gauges_plan().split(parts[0])
    } else {
        Vec::new()
    };
    let second: u16 = if parts.len() > 1 {
        parts[1].height
    } else {
        0
    };
    Placed {
        screen: ui(app, given, body.height, second, now),
        outer,
        parts,
        gauges,
        help: help_area(area),
    }
}

} // verus!

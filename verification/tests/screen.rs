use kannaka_tui::app::App;
use kannaka_tui::bus::{AgentSnapshot, BusLine, DreamEvent};
use kannaka_tui::chat::ChatWho;
use kannaka_tui::dream::DreamRunState;
use kannaka_tui::live::BusStatus;
use kannaka_tui::model::Role;
use kannaka_tui::reply::{MemoryEntry, Status};
use kannaka_tui::screen::bars::{
    input_cursor, render_header, render_input, render_tabs, to_low_half, Reading, Readings,
};
use kannaka_tui::screen::bus_tab::render_bus_tab;
use kannaka_tui::screen::chat_tab::render_chat_tab;
use kannaka_tui::screen::constellation_tab::{
    agent_radius, render_constellation_tab, AgentReading, ConstellationTab, AGENT_FRESH_WINDOW,
};
use kannaka_tui::screen::dreams_tab::{render_dreams_tab, DreamReading};
use kannaka_tui::screen::help::{help_area, render_help_overlay};
use kannaka_tui::screen::layout::{
    gauges_plan, screen_plan, tab_plan, Area, Axis, Part, Plan,
};
use kannaka_tui::screen::memory_tab::{render_memory_tab, Amplitude};
use kannaka_tui::screen::status_tab::{render_status_tab, StatusTab};
use kannaka_tui::screen::whole::{ui, ui_in, Body, Given, Screen};
use kannaka_tui::style::{Color, Flow, Line, Panel, Style};

const START: u64 = 60_000_000_000;

fn fresh() -> App {
    App::new("nova".to_string(), "kannaka".to_string(), START)
}

fn plain(line: &Line) -> String {
    line.spans.iter().map(|s| s.text.as_str()).collect()
}

fn lines(panel: &Panel) -> Vec<String> {
    panel.lines.iter().map(plain).collect()
}

fn reading(x: f32) -> Reading {
    Reading { bits: x.to_bits(), fixed3: format!("{:.3}", x) }
}

fn readings() -> Readings {
    Readings { phi: reading(0.6), xi: reading(0.25), order: reading(1.0) }
}

fn status() -> Status {
    Status {
        phi: 1,
        xi: 2,
        order: 3,
        memories: 40,
        clusters: 5,
        links: 6,
        level: "Resonant".to_string(),
        active: 7,
    }
}

#[test]
fn the_header_names_the_agent_and_its_readings() {
    let app = fresh();
    let panel = render_header(&app, &readings());
    assert_eq!(
        lines(&panel),
        vec!["  KANNAKA \u{25c6} nova | Phi: 0.600 | Xi: 0.250 | r: 1.000"]
    );
    assert_eq!(panel.border, Color::Accent);
    assert_eq!(panel.lines[0].spans[5].style, Style::fg(Color::Warning));
    assert_eq!(panel.lines[0].spans[0].style, Style::bold(Color::Accent));
    assert_eq!(app.header_readings(), (0, 0, 0));
    let mut known = fresh();
    known.status = Some(status());
    assert_eq!(known.header_readings(), (1, 2, 3));
}

#[test]
fn the_tab_bar_names_the_tabs() {
    let bar = render_tabs(&fresh());
    let titles: Vec<String> = bar.titles.iter().map(plain).collect();
    assert_eq!(titles, vec!["Memory", "Status", "Bus", "Constellation", "Dreams", "Chat"]);
    assert_eq!(bar.selected, 5);
    assert_eq!(bar.divider.text, " | ");
    assert_eq!(bar.highlight, Style::marked(Color::Accent));
    assert_eq!(plain(&bar.frame.title), " Tab/Shift+Tab to switch  F1:Help ");
}

#[test]
fn the_input_bar_shows_the_text_and_the_tab() {
    let mut app = fresh();
    app.bar.type_char('h');
    app.bar.type_char('i');
    for (tab, mark) in
        ["[M]", "[S]", "[B]", "[C]", "[D]", "[Ch]"].into_iter().enumerate()
    {
        app.active_tab = tab;
        let panel = render_input(&app);
        assert_eq!(lines(&panel), vec![" > hi"]);
        assert_eq!(plain(&panel.footer), format!(" {} ", mark));
    }
    let area = Area { x: 2, y: 30, width: 80, height: 3 };
    assert_eq!(input_cursor(&app, area), (8, 31));
}

#[test]
fn long_offsets_are_cut_to_sixteen_digits() {
    for n in [0_usize, 1, 65_535, 65_536, 65_541, usize::MAX] {
        assert_eq!(to_low_half(n), n as u16);
    }
}

#[test]
fn the_command_log_shows_the_last_messages() {
    let mut app = fresh();
    for (role, text) in
        [(Role::User, "u"), (Role::System, "s"), (Role::Result, "r"), (Role::Error, "e")]
    {
        app.tell(role, text);
    }
    let tab = |app: &App, height: u16| lines(&render_memory_tab(app, &vec![], height, 20).log);
    assert_eq!(tab(&app, 4), vec!["> u", "\u{2192} s", "\u{2713} r", "\u{2717} e"]);
    assert_eq!(tab(&app, 1), vec!["\u{2717} e"]);
    assert_eq!(tab(&app, 0), Vec::<String>::new());
    assert_eq!(tab(&app, 50).len(), 5);
    app.scroll_offset = 2;
    assert_eq!(tab(&app, 2), vec!["> u", "\u{2192} s"]);
    app.scroll_offset = 4;
    assert_eq!(tab(&app, 50).len(), 1);
    app.scroll_offset = 500;
    assert_eq!(tab(&app, 50).len(), 0);
    app.scroll_offset = 0;
    let log = render_memory_tab(&app, &vec![], 4, 20).log;
    assert_eq!(log.flow, Flow::List);
    assert_eq!(plain(&log.title), " Command History ");
    assert_eq!(log.lines[3].spans[1].style, Style::fg(Color::Error));
}

#[test]
fn memories_come_with_a_bar() {
    let mut app = fresh();
    app.memories = vec![
        MemoryEntry { content: "a memory that is long enough".to_string(), amplitude: 0 },
        MemoryEntry { content: "b".to_string(), amplitude: 0 },
    ];
    let amplitudes = vec![
        Amplitude { bits: 0.85_f32.to_bits(), fixed2: "0.85".to_string(), tenths: 9 },
        Amplitude { bits: 2.5_f32.to_bits(), fixed2: "2.50".to_string(), tenths: 25 },
    ];
    let panel = render_memory_tab(&app, &amplitudes, 20, 20).memories;
    assert_eq!(
        lines(&panel),
        vec![
            "\u{2588}\u{2588}\u{2588}\u{2588}\u{2588}\u{2588}\u{2588}\u{2588}\u{2588}\u{2591} \
             a memory that is long en (0.85)",
            "\u{2588}\u{2588}\u{2588}\u{2588}\u{2588}\u{2588}\u{2588}\u{2588}\u{2588}\u{2588} \
             b (2.50)",
            "",
            "  Memories: 0",
            "  Clusters: 0",
            "  Links: 0",
            "  Level: Unknown"
        ]
    );
    assert_eq!(panel.lines[0].spans[0].style, Style::fg(Color::Accent));
    assert_eq!(panel.lines[6].spans[0].style, Style::fg(Color::Dim));
    assert_eq!(render_memory_tab(&app, &amplitudes, 20, 7).memories.lines.len(), 6);
    assert_eq!(render_memory_tab(&app, &amplitudes, 20, 3).memories.lines.len(), 5);
    app.status = Some(status());
    let known = render_memory_tab(&app, &amplitudes, 20, 0).memories;
    assert_eq!(
        lines(&known),
        vec!["", "  Memories: 40", "  Clusters: 5", "  Links: 6", "  Level: Resonant"]
    );
    assert_eq!(known.lines[4].spans[0].style, Style::fg(Color::Success));
}

#[test]
fn the_status_tab_waits_for_a_status() {
    match render_status_tab(&fresh(), &readings()) {
        StatusTab::Loading(panel) => {
            assert_eq!(lines(&panel), vec!["Loading status... (polling kannaka status)"]);
            assert_eq!(plain(&panel.title), " Status ");
            assert_eq!(panel.base, Style::on(Color::Dim, Color::Background));
        }
        StatusTab::Shown(_) => panic!("there is no status"),
    }
}

#[test]
fn the_status_tab_shows_gauges_and_counts() {
    let mut app = fresh();
    app.status = Some(status());
    match render_status_tab(&app, &readings()) {
        StatusTab::Shown(g) => {
            assert_eq!(plain(&g.phi.frame.title), " Phi (Integrated Information): 0.600 ");
            assert_eq!(g.phi.bar, Style::on(Color::Warning, Color::Rgb(30, 30, 50)));
            assert_eq!(g.phi.bits, 0.6_f32.to_bits());
            assert_eq!(plain(&g.xi.frame.title), " Xi (Irrationality): 0.250 ");
            assert_eq!(plain(&g.order.frame.title), " Order Parameter (r): 1.000 ");
            assert_eq!(
                lines(&g.info),
                vec![
                    "",
                    "  Consciousness Level: Resonant",
                    "",
                    "  Total Memories:  40",
                    "  Active Memories: 7",
                    "  Clusters:        5",
                    "  Skip Links:      6",
                    "",
                    "  Polling every 5s on this tab"
                ]
            );
            assert_eq!(g.info.lines[1].spans[1].style, Style::bold(Color::Success));
        }
        StatusTab::Loading(_) => panic!("there is a status"),
    }
}

fn row(n: i64, subject: &str) -> BusLine {
    BusLine { ts_ms: n, subject: subject.to_string(), summary: format!("#{}", n) }
}

#[test]
fn the_bus_tab_shows_the_newest_rows_last() {
    let mut app = fresh();
    app.live.lines.push_back(row(0, "KANNAKA.dreams"));
    app.live.lines.push_back(row(1_000, &"x".repeat(30)));
    let panel = render_bus_tab(&app, &vec![0, 3_600], 20);
    assert_eq!(
        lines(&panel),
        vec![
            format!("         {:<28} #0", "KANNAKA.dreams"),
            format!("01:00:01 {}\u{2026} #1000", "x".repeat(27))
        ]
    );
    assert_eq!(panel.lines[0].spans[1].style, Style::bold(Color::Warning));
    assert_eq!(
        plain(&panel.title),
        " Bus \u{b7} idle \u{2014} switch to this tab to start \u{b7} 2 msgs "
    );
    assert_eq!(panel.border, Color::Dim);
    for height in 0..4 {
        assert_eq!(lines(&render_bus_tab(&app, &vec![0, 0], height)).len(), 1);
    }
    assert_eq!(render_bus_tab(&app, &vec![0, 0], 4).lines.len(), 2);
    assert!(lines(&render_bus_tab(&app, &vec![0, 0], 3))[0].ends_with("#1000"));
    for (status, label, color) in [
        (BusStatus::Connecting, "connecting\u{2026}", Color::Warning),
        (BusStatus::Streaming, "streaming", Color::Success),
        (BusStatus::Failed, "failed \u{2014} check `kannaka swarm tail` manually", Color::Error),
    ] {
        app.live.status = status;
        let panel = render_bus_tab(&app, &vec![0, 0], 9);
        assert_eq!(plain(&panel.title), format!(" Bus \u{b7} {} \u{b7} 2 msgs ", label));
        assert_eq!(panel.border, color);
    }
}

fn agent(id: &str, seen: u64) -> AgentSnapshot {
    AgentSnapshot {
        agent_id: id.to_string(),
        theta: 0,
        phi: 0,
        coherence: 0,
        order_parameter: 0,
        handedness: "left".to_string(),
        memory_count: 12,
        last_seen: seen,
    }
}

fn agent_reading() -> AgentReading {
    AgentReading {
        phi_bits: 0,
        phi: "0.125".to_string(),
        theta: "-3.14".to_string(),
        order: "0.50".to_string(),
    }
}

#[test]
fn the_constellation_tab_waits_for_agents() {
    let mut app = fresh();
    for (status, text) in [
        (BusStatus::Off, "  Waiting for the bus to start\u{2026}"),
        (BusStatus::Connecting, "  Connecting to the swarm\u{2026}"),
        (BusStatus::Streaming, "  Streaming \u{2014} no agents have reported phase yet"),
        (BusStatus::Failed, "  Bus failed \u{2014} see logs"),
    ] {
        app.live.status = status;
        match render_constellation_tab(&app, &vec![], START) {
            ConstellationTab::Waiting(panel) => {
                assert_eq!(panel.lines.len(), 8);
                assert_eq!(lines(&panel)[3], text);
            }
            ConstellationTab::Shown { .. } => panic!("there are no agents"),
        }
    }
}

#[test]
fn the_constellation_tab_greys_agents_that_fell_silent() {
    let mut app = fresh();
    let now = START + AGENT_FRESH_WINDOW;
    app.live.agents.insert(agent("an-agent-with-a-name", START));
    app.live.agents.insert(agent("b", START + 1));
    match render_constellation_tab(&app, &vec![agent_reading(), agent_reading()], now) {
        ConstellationTab::Shown { frame, dots, list } => {
            assert_eq!(plain(&frame.title), " Constellation \u{b7} 2 agents ");
            assert_eq!(dots[0].label, "an-agent-with\u{2026}");
            assert_eq!(dots[0].color, Color::Dim);
            assert_eq!((dots[1].label.as_str(), dots[1].color), ("b", Color::Rgb(255, 120, 120)));
            assert_eq!(
                lines(&list),
                vec![
                    "  agent           \u{3a6}     \u{3b8}     r    mem",
                    "\u{b7} an-agent-with\u{2026} 0.125 -3.14 0.50    12",
                    "  b              0.125 -3.14 0.50    12"
                ]
            );
            assert_eq!(list.lines[1].spans[1].style, Style::bold(Color::Dim));
            assert_eq!(list.flow, Flow::List);
        }
        ConstellationTab::Waiting(_) => panic!("there are agents"),
    }
    let mut one = fresh();
    one.live.agents.insert(agent("b", START));
    match render_constellation_tab(&one, &vec![agent_reading()], START) {
        ConstellationTab::Shown { frame, .. } => {
            assert_eq!(plain(&frame.title), " Constellation \u{b7} 1 agent ");
        }
        ConstellationTab::Waiting(_) => panic!("there is an agent"),
    }
}

fn dream(n: u64, emerged: bool) -> DreamEvent {
    DreamEvent {
        ts_ms: 1_000,
        agent_id: "nova".to_string(),
        cycles: n,
        strengthened: 1,
        pruned: 22,
        new_connections: 333,
        hallucinations: 123_456,
        consciousness_before: 0,
        consciousness_after: 0,
        emerged,
    }
}

fn dream_reading(delta: f32) -> DreamReading {
    DreamReading { delta: delta.to_bits(), signed3: format!("{:+.3}", delta), offset_secs: 0 }
}

#[test]
fn the_dreams_tab_lists_reports() {
    let mut app = fresh();
    let empty = render_dreams_tab(&app, "", &vec![], 20, START).history;
    assert_eq!(empty.lines.len(), 4);
    assert_eq!(lines(&empty)[3], "  finishes a dream cycle, the report shows up here.");
    assert_eq!(plain(&empty.title), " Recent Dreams \u{b7} 0 ");
    app.live.dreams.push_back(dream(3, true));
    app.live.dreams.push_back(dream(2, false));
    let given = vec![dream_reading(0.25), dream_reading(-0.5)];
    let panel = render_dreams_tab(&app, "", &given, 20, START).history;
    assert_eq!(
        lines(&panel),
        vec![
            "  time     agent           cycles  +\u{3a6}    \u{394}str  \u{394}prn  \u{394}new  halluc",
            "",
            "\u{2605} 00:00:01 nova                3  +0.250     1     22    333  123456",
            "  00:00:01 nova                2  -0.500     1     22    333  123456"
        ]
    );
    assert_eq!(panel.lines[2].spans[4].style, Style::fg(Color::Success));
    assert_eq!(panel.lines[3].spans[4].style, Style::fg(Color::Error));
    for height in 0..5 {
        assert_eq!(render_dreams_tab(&app, "", &given, height, START).history.lines.len(), 3);
    }
    assert_eq!(render_dreams_tab(&app, "", &given, 5, START).history.lines.len(), 4);
}

#[test]
fn the_dreams_tab_shows_the_local_dream() {
    let mut app = fresh();
    let run = |app: &App, now: u64| render_dreams_tab(app, "1.5", &vec![], 20, now).run;
    let idle = run(&app, START);
    assert_eq!(plain(&idle.title), " Local Dream \u{b7} idle ");
    assert_eq!(idle.border, Color::Dim);
    assert_eq!(
        lines(&idle),
        vec!["  Press 'd' for deep, 'l' for lite \u{2014} or type `dream` in the bar."]
    );
    app.start_dream("deep", START);
    let running = run(&app, START + 2_999_999_999);
    assert_eq!(plain(&running.title), " Local Dream \u{b7} running ");
    assert_eq!(running.border, Color::Warning);
    assert_eq!(lines(&running)[0], "  Mode: deep    elapsed: 2s");
    app.dreamer.run = DreamRunState::Done {
        mode: "lite".to_string(),
        took: 1,
        summary: "a\nb".to_string(),
    };
    let done = run(&app, START);
    assert_eq!(plain(&done.title), " Local Dream \u{b7} complete ");
    assert_eq!(lines(&done), vec!["  Mode: lite    took: 1.5s", "  a \u{b7} b"]);
    app.dreamer.run =
        DreamRunState::Failed { mode: "lite".to_string(), error: "e".repeat(201) };
    let failed = run(&app, START);
    assert_eq!(plain(&failed.title), " Local Dream \u{b7} failed ");
    assert_eq!(failed.border, Color::Error);
    assert_eq!(
        lines(&failed),
        vec!["  Mode: lite".to_string(), format!("  {}\u{2026}", "e".repeat(199))]
    );
}

#[test]
fn the_dreams_tab_names_its_hotkeys() {
    let hints = render_dreams_tab(&fresh(), "", &vec![], 20, START).hints;
    assert_eq!(
        lines(&hints),
        vec![" d  deep dream   l  lite dream   \u{2605}  emergence detected "]
    );
    assert_eq!(
        hints.lines[0].spans[0].style,
        Style::badge(Color::Background, Color::Success)
    );
}

#[test]
fn the_chat_tab_shows_the_conversation() {
    let mut app = fresh();
    app.chat.lines.clear();
    app.chat.say(ChatWho::User, "hi");
    app.chat.say(ChatWho::Kannaka, "hello");
    app.chat.say(ChatWho::System, "note");
    let panel = render_chat_tab(&app);
    assert_eq!(lines(&panel), vec!["you hi", "", "kannaka hello", "", "\u{b7} note", ""]);
    assert_eq!(plain(&panel.title), " Chat ");
    assert_eq!(panel.flow, Flow::Wrapped { scroll: 0 });
    app.chat.spawn_chat_turn("x".to_string());
    app.scroll_offset = 65_546;
    for (tick, figure) in [(0, "\u{2014}"), (1, "\\"), (2, "|"), (3, "/"), (4, "\u{2014}")] {
        app.chat.tick = tick;
        let waiting = render_chat_tab(&app);
        assert_eq!(lines(&waiting)[6], format!("kannaka {} resonating\u{2026}", figure));
        assert_eq!(plain(&waiting.title), " Chat \u{b7} thinking\u{2026} ");
        assert_eq!(waiting.flow, Flow::Wrapped { scroll: 10 });
    }
}

#[test]
fn the_help_overlay_has_its_sections() {
    let panel = render_help_overlay();
    let text = lines(&panel);
    assert_eq!(text.len(), 41);
    assert_eq!(text[0], " Kannaka TUI \u{b7} v0.5.8");
    for section in [
        " Tabs",
        " Navigation",
        " Dreams tab hotkeys (when input is empty)",
        " Chat tab plugin slash commands",
        " Bus subject colors",
        " Command bar (Memory + Chat tabs)",
    ] {
        assert!(text.iter().any(|l| l == section), "{}", section);
    }
    assert_eq!(text[11], "   Tab / Shift+Tab   Switch tabs");
    assert_eq!(text[15], "   q / Esc / Ctrl+C    Quit (q/Esc only when input is empty)");
    assert_eq!(
        text[27],
        "   \u{25cf} KANNAKA.*     \u{25cf} RADIO.*     \u{25cf} KAX.*"
    );
    assert_eq!(text[32], "   recall \"query\"         Resonance search (top-k 5)");
    assert_eq!(text[40], " Press any key to close");
    assert_eq!(panel.ground, Color::Rgb(15, 15, 30));
    assert_eq!(plain(&panel.title), " Help \u{b7} F1 to close ");
}

#[test]
fn the_help_overlay_stands_in_the_middle() {
    let at = |width: u16, height: u16| {
        let a = help_area(Area { x: 0, y: 0, width, height });
        (a.x, a.y, a.width, a.height)
    };
    assert_eq!(at(200, 60), (61, 7, 78, 46));
    assert_eq!(at(80, 24), (2, 2, 76, 20));
    assert_eq!(at(4, 4), (2, 2, 0, 0));
    assert_eq!(at(3, 0), (1, 0, 0, 0));
    assert_eq!(at(u16::MAX, u16::MAX), (32_728, 32_744, 78, 46));
}

fn wishes(plan: Plan) -> (Axis, Vec<Part>) {
    (plan.axis, plan.parts)
}

#[test]
fn plans_ask_for_their_parts() {
    let three = Part::Length(3);
    assert_eq!(wishes(screen_plan()), (Axis::Down, vec![three, three, Part::Min(8), three]));
    assert_eq!(wishes(gauges_plan()), (Axis::Down, vec![three, three, three, Part::Min(1)]));
    for (tab, left, right) in [(0, 60, 40), (1, 55, 45), (3, 65, 35)] {
        assert_eq!(
            wishes(tab_plan(tab).unwrap()),
            (Axis::Across, vec![Part::Percentage(left), Part::Percentage(right)])
        );
    }
    assert_eq!(
        wishes(tab_plan(4).unwrap()),
        (Axis::Down, vec![Part::Length(5), Part::Min(6), three])
    );
    assert!(tab_plan(2).is_none());
    assert!(tab_plan(5).is_none());
}

/// The places and lengths along the axis of the parts of an area.
fn cut(axis: Axis, parts: &[Part], start: u16, extent: u16) -> Vec<(u32, u32)> {
    let plan = Plan { axis, parts: parts.to_vec() };
    let area = match axis {
        Axis::Across => Area { x: start, y: 7, width: extent, height: 9 },
        Axis::Down => Area { x: 7, y: start, width: 9, height: extent },
    };
    let cells = plan.split(area);
    assert_eq!(cells.len(), parts.len());
    cells
        .iter()
        .map(|a| match axis {
            Axis::Across => {
                assert_eq!((a.y, a.height), (7, 9));
                (a.x as u32, a.width as u32)
            }
            Axis::Down => {
                assert_eq!((a.x, a.width), (7, 9));
                (a.y as u32, a.height as u32)
            }
        })
        .collect()
}

/// Asserts that parts follow each other from the start, within the extent.
fn assert_row(cells: &[(u32, u32)], start: u16, extent: u16) {
    let mut at = start as u32;
    for (place, length) in cells {
        assert_eq!(*place, at, "{:?} in {} {}", cells, start, extent);
        at += length;
    }
    assert!(at <= start as u32 + extent as u32);
}

#[test]
fn lengths_and_minima_are_granted_where_they_fit() {
    let l = Part::Length;
    let m = Part::Min;
    let plans = vec![
        vec![l(3), l(3), m(8), l(3)],
        vec![l(3), l(3), l(3), m(1)],
        vec![l(5), m(6), l(3)],
        vec![l(4), l(0), l(7)],
        vec![m(2), l(3), m(5), m(0)],
        vec![m(0), m(0), m(0), l(1), m(0), m(0), m(0), m(0)],
        vec![l(1)],
        vec![m(40)],
        vec![],
    ];
    for parts in plans {
        let asked: u32 = parts
            .iter()
            .map(|p| match p {
                Part::Length(n) | Part::Min(n) | Part::Percentage(n) => *n as u32,
            })
            .sum();
        let grows = parts.iter().any(|p| matches!(p, Part::Min(_)));
        for start in [0_u16, 1, 5_000] {
            for extent in 0..70_u16 {
                let cells = cut(Axis::Down, &parts, start, extent);
                assert_row(&cells, start, extent);
                if grows {
                    let (place, length) = cells[cells.len() - 1];
                    assert_eq!(place + length, start as u32 + extent as u32);
                }
                let minima: Vec<usize> =
                    (0..parts.len()).filter(|i| matches!(parts[*i], Part::Min(_))).collect();
                if let (true, [k]) = (asked > extent as u32, minima.as_slice()) {
                    if let Part::Min(n) = parts[*k] {
                        assert_eq!(cells[*k].1, n.min(extent) as u32);
                    }
                }
                if asked <= extent as u32 {
                    for (part, (_, length)) in parts.iter().zip(&cells) {
                        match part {
                            Part::Length(n) => assert_eq!(*length, *n as u32),
                            Part::Min(n) => assert!(*length >= *n as u32),
                            Part::Percentage(_) => {}
                        }
                    }
                }
            }
        }
    }
}

#[test]
fn hundredths_are_shared_out_to_the_nearest_cell() {
    let p = Part::Percentage;
    for parts in [
        vec![p(60), p(40)],
        vec![p(55), p(45)],
        vec![p(65), p(35)],
        vec![p(33), p(33), p(33)],
        vec![p(1), p(0), p(99)],
        vec![p(50)],
    ] {
        for start in [0_u16, 3, 5_000] {
            for extent in 0..260_u16 {
                let cells = cut(Axis::Across, &parts, start, extent);
                assert_row(&cells, start, extent);
                let mut total: u32 = 0;
                for (part, (place, length)) in parts.iter().zip(&cells) {
                    if let Part::Percentage(n) = part {
                        total += *n as u32;
                    }
                    let end = start as u32 + (total * extent as u32 + 50) / 100;
                    assert_eq!(place + length, end, "{:?} in {} {}", parts, start, extent);
                }
            }
        }
    }
}

#[test]
fn areas_at_the_end_of_the_grid_are_cut_up() {
    let screen = wishes(screen_plan()).1;
    assert_eq!(
        cut(Axis::Down, &screen, 65_000, 535),
        vec![(65_000, 3), (65_003, 3), (65_006, 526), (65_532, 3)]
    );
    assert_row(&cut(Axis::Down, &screen, 65_500, 60_000), 65_500, 35);
}

#[test]
fn the_rows_of_the_screen_are_settled() {
    let down = screen_plan().split(Area { x: 1, y: 2, width: 100, height: 40 });
    let rows: Vec<(u16, u16)> = down.iter().map(|a| (a.y, a.height)).collect();
    assert_eq!(rows, vec![(2, 3), (5, 3), (8, 31), (39, 3)]);
    assert!(down.iter().all(|a| (a.x, a.width) == (1, 100)));
}

#[test]
fn two_shares_divide_an_area() {
    assert_eq!(cut(Axis::Across, &wishes(tab_plan(0).unwrap()).1, 1, 101), vec![(1, 61), (62, 40)]);
    assert_eq!(cut(Axis::Across, &wishes(tab_plan(1).unwrap()).1, 0, 10), vec![(0, 6), (6, 4)]);
}

#[test]
fn the_screen_comes_with_its_places() {
    let mut app = fresh();
    for n in 0..40 {
        app.tell(Role::User, &n.to_string());
    }
    app.active_tab = 0;
    let area = Area { x: 0, y: 0, width: 100, height: 24 };
    let placed = ui_in(&app, &given(), area, START);
    assert_eq!(placed.outer[2], Area { x: 0, y: 6, width: 100, height: 15 });
    assert_eq!(placed.parts[1], Area { x: 60, y: 6, width: 40, height: 15 });
    assert!(placed.gauges.is_empty());
    assert_eq!(placed.help, help_area(area));
    match &placed.screen.body {
        Body::Memory(tab) => assert_eq!(tab.log.lines.len(), 15),
        _ => panic!("the memory tab is open"),
    }
    app.active_tab = 1;
    let status = ui_in(&app, &given(), area, START);
    assert_eq!(status.gauges[1], Area { x: 0, y: 9, width: 55, height: 3 });
    app.active_tab = 5;
    assert!(ui_in(&app, &given(), area, START).parts.is_empty());
}

#[test]
fn agents_stand_out_by_their_coherence() {
    let with = |coherence: f64, order: f64| {
        let mut a = agent("a", START);
        a.coherence = coherence.to_bits();
        a.order_parameter = order.to_bits();
        f64::from_bits(agent_radius(&a))
    };
    assert_eq!(with(0.25, 0.75), 0.25);
    assert_eq!(with(0.75, 0.25), 0.75);
    assert_eq!(with(0.0, 0.5), 0.5);
    assert_eq!(with(-0.0, 0.5), 0.5);
}

fn given() -> Given {
    Given {
        readings: readings(),
        amplitudes: vec![],
        offsets: vec![],
        agents: vec![],
        dreams: vec![],
        took_secs: String::new(),
    }
}

fn body_name(screen: &Screen) -> &'static str {
    match &screen.body {
        Body::Memory(_) => "memory",
        Body::Status(_) => "status",
        Body::Bus(_) => "bus",
        Body::Constellation(_) => "constellation",
        Body::Dreams(_) => "dreams",
        Body::Chat(_) => "chat",
    }
}

#[test]
fn the_open_tab_is_shown() {
    let mut app = fresh();
    for (tab, name) in
        ["memory", "status", "bus", "constellation", "dreams", "chat"].into_iter().enumerate()
    {
        app.active_tab = tab;
        let screen = ui(&app, &given(), 20, 10, START);
        assert_eq!(body_name(&screen), name);
        assert_eq!(screen.tabs.selected, tab);
        assert!(screen.help.is_none());
    }
    app.show_help = true;
    let screen = ui(&app, &given(), 20, 10, START);
    assert_eq!(screen.help.unwrap().lines.len(), 41);
    assert_eq!(lines(&screen.input), vec![" > "]);
}

#[test]
fn the_heights_reach_the_open_tab() {
    let mut app = fresh();
    for n in 0..9 {
        app.tell(Role::User, &n.to_string());
    }
    app.active_tab = 0;
    match ui(&app, &given(), 4, 0, START).body {
        Body::Memory(tab) => {
            assert_eq!(lines(&tab.log), vec!["> 5", "> 6", "> 7", "> 8"]);
            assert_eq!(tab.memories.lines.len(), 5);
        }
        _ => panic!("the memory tab is open"),
    }
}

#[test]
fn the_open_tab_comes_first_on_a_small_screen() {
    for (height, rows) in [(16_u16, 8_u16), (9, 8), (8, 8), (7, 7), (0, 0)] {
        let down = screen_plan().split(Area { x: 0, y: 5, width: 80, height });
        assert_eq!(down[2].height, rows);
    }
}

#[test]
fn a_lone_minimum_is_served_before_the_lengths() {
    let l = Part::Length;
    for n in [0_u16, 1, 7, 30, 32_767] {
        for before in 0..4_usize {
            for after in 0..4_usize {
                for length in [2_u16, 11, 65_535] {
                    let mut parts: Vec<Part> = (0..before).map(|_| l(length)).collect();
                    parts.push(Part::Min(n));
                    for i in 0..after {
                        parts.push(l(length - (i as u16 % 2)));
                    }
                    let asked: u32 = parts
                        .iter()
                        .map(|p| match p {
                            Part::Length(n) | Part::Min(n) | Part::Percentage(n) => *n as u32,
                        })
                        .sum();
                    for (start, extent) in [(0_u16, 0_u16), (0, 1), (3, 5), (9, 31), (700, 40_000)] {
                        if asked > extent as u32 {
                            let cells = cut(Axis::Across, &parts, start, extent);
                            assert_row(&cells, start, extent);
                            assert_eq!(cells[before].1, n.min(extent) as u32);
                        }
                    }
                }
            }
        }
    }
}

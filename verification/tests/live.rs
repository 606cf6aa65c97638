use kannaka_tui::agents::name_precedes;
use kannaka_tui::bus::{AgentSnapshot, BusLine, DreamEvent};
use kannaka_tui::effect::Task;
use kannaka_tui::live::{Batch, BusStart, BusStatus, Live, BUS_BACKLOG_CAP, DREAM_HISTORY_CAP};

fn row(n: usize) -> BusLine {
    BusLine { ts_ms: n as i64, subject: "s".to_string(), summary: n.to_string() }
}

fn rows(from: usize, to: usize) -> Batch<BusLine> {
    Batch { items: (from..to).map(row).collect(), closed: false }
}

fn agent(id: &str, seen: u64) -> AgentSnapshot {
    AgentSnapshot {
        agent_id: id.to_string(),
        theta: 0,
        phi: 0,
        coherence: 0,
        order_parameter: 0,
        handedness: String::new(),
        memory_count: 0,
        last_seen: seen,
    }
}

fn dream(cycles: u64) -> DreamEvent {
    DreamEvent {
        ts_ms: 0,
        agent_id: String::new(),
        cycles,
        strengthened: 0,
        pruned: 0,
        new_connections: 0,
        hallucinations: 0,
        consciousness_before: 0,
        consciousness_after: 0,
        emerged: false,
    }
}

fn connecting() -> Live {
    let mut live = Live::new();
    live.start_bus();
    live.take_bus_start(BusStart::Running, 0);
    live
}

#[test]
fn the_stream_is_started_once() {
    let mut live = Live::new();
    assert_eq!(live.status, BusStatus::Off);
    let work = live.start_bus();
    assert_eq!(work.len(), 1);
    assert_eq!(work[0].task, Task::Bus);
    assert_eq!(work[0].args, vec!["swarm", "tail"]);
    assert_eq!(live.status, BusStatus::Connecting);
    live.take_bus_start(BusStart::Running, 0);
    assert!(live.start_bus().is_empty());
}

#[test]
fn a_stream_that_cannot_start_leaves_a_row_and_may_be_tried_again() {
    let mut live = Live::new();
    live.start_bus();
    live.take_bus_start(BusStart::NotRun("gone".to_string()), 99);
    assert_eq!(live.status, BusStatus::Failed);
    assert_eq!(live.lines.len(), 1);
    assert_eq!(live.lines[0].ts_ms, 99);
    assert_eq!(live.lines[0].subject, "tui.error");
    assert_eq!(live.lines[0].summary, "could not spawn 'kannaka swarm tail': gone");
    assert_eq!(live.start_bus().len(), 1);
    live.take_bus_start(BusStart::Unreadable, 0);
    assert_eq!(live.status, BusStatus::Failed);
    assert_eq!(live.lines.len(), 1);
}

#[test]
fn rows_show_that_the_stream_is_up_and_its_end_that_it_is_down() {
    let mut live = connecting();
    live.poll_rows(rows(0, 0));
    assert_eq!(live.status, BusStatus::Connecting);
    live.poll_rows(rows(0, 2));
    assert_eq!(live.status, BusStatus::Streaming);
    live.poll_rows(Batch { items: vec![row(2)], closed: true });
    assert_eq!(live.status, BusStatus::Failed);
    assert_eq!(live.lines.len(), 3);
    live.poll_rows(rows(3, 4));
    assert_eq!(live.lines.len(), 3);
    assert_eq!(live.status, BusStatus::Failed);
}

#[test]
fn the_backlog_keeps_the_newest_rows() {
    let mut live = connecting();
    live.poll_rows(rows(0, BUS_BACKLOG_CAP));
    assert_eq!(live.lines.len(), BUS_BACKLOG_CAP);
    live.poll_rows(rows(BUS_BACKLOG_CAP, BUS_BACKLOG_CAP + 3));
    assert_eq!(live.lines.len(), BUS_BACKLOG_CAP);
    assert_eq!(live.lines[0].ts_ms, 3);
    assert_eq!(live.lines[BUS_BACKLOG_CAP - 1].ts_ms, (BUS_BACKLOG_CAP + 2) as i64);
}

#[test]
fn the_history_keeps_the_newest_dreams_first() {
    let mut live = connecting();
    let all = DREAM_HISTORY_CAP as u64 + 2;
    live.poll_dreams(Batch { items: (0..all).map(dream).collect(), closed: false });
    assert_eq!(live.dreams.len(), DREAM_HISTORY_CAP);
    assert_eq!(live.dreams[0].cycles, all - 1);
    assert_eq!(live.dreams[DREAM_HISTORY_CAP - 1].cycles, 2);
    live.poll_dreams(Batch { items: vec![dream(100)], closed: true });
    assert_eq!(live.dreams[0].cycles, 100);
    live.poll_dreams(Batch { items: vec![dream(101)], closed: false });
    assert_eq!(live.dreams[0].cycles, 100);
}

#[test]
fn each_agent_is_listed_once_by_name_with_its_last_report() {
    let mut live = connecting();
    let items = vec![agent("b", 1), agent("a", 2), agent("\u{e9}", 3), agent("b", 4), agent("B", 5)];
    live.poll_agents(Batch { items, closed: true });
    let listed: Vec<(&str, u64)> =
        live.agents.list.iter().map(|a| (a.agent_id.as_str(), a.last_seen)).collect();
    assert_eq!(listed, vec![("B", 5), ("a", 2), ("b", 4), ("\u{e9}", 3)]);
    live.poll_agents(Batch { items: vec![agent("z", 6)], closed: false });
    assert_eq!(live.agents.list.len(), 4);
}

#[test]
fn nothing_is_taken_before_the_stream_is_wanted() {
    let mut live = Live::new();
    live.poll_rows(rows(0, 1));
    live.poll_agents(Batch { items: vec![agent("a", 0)], closed: false });
    live.poll_dreams(Batch { items: vec![dream(1)], closed: false });
    assert_eq!((live.lines.len(), live.agents.list.len(), live.dreams.len()), (0, 0, 0));
    assert_eq!(live.status, BusStatus::Off);
}

#[test]
fn names_are_ordered_as_strings_are() {
    let names = ["", "a", "ab", "b", "B", "\u{e9}", "\u{ffff}", "\u{10000}", "a\u{0}"];
    for a in names {
        for b in names {
            assert_eq!(name_precedes(a, b), a < b, "{:?} {:?}", a, b);
        }
    }
}

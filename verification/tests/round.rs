use kannaka_tui::app::App;
use kannaka_tui::bus::BusLine;
use kannaka_tui::chat::{ChatEvent, Pending};
use kannaka_tui::dream::{since, DreamNews, DreamRunState};
use kannaka_tui::effect::{Plugin, Task};
use kannaka_tui::live::{Batch, BusStart, BusStatus};
use kannaka_tui::model::News;
use kannaka_tui::reply::ChatReply;
use kannaka_tui::round::{BusInbox, ChatInbox, Inbox};

const START: u64 = 60_000_000_000;

fn fresh() -> App {
    App::new("nova".to_string(), "kannaka".to_string(), START)
}

fn nothing<T>() -> Batch<T> {
    Batch { items: vec![], closed: false }
}

fn no_bus() -> BusInbox {
    BusInbox { rows: nothing(), agents: nothing(), dreams: nothing(), dream: DreamNews::Nothing }
}

fn quiet() -> Inbox {
    Inbox {
        chat: ChatInbox { events: vec![], lost: false, answer: None },
        status: News::Nothing,
        observed: News::Nothing,
        bus: no_bus(),
        plugin: nothing(),
    }
}

#[test]
fn a_quiet_round_changes_nothing() {
    let mut app = fresh();
    assert!(app.poll(quiet(), START).is_empty());
    assert_eq!((app.messages.len(), app.chat.lines.len(), app.chat.tick), (1, 1, 0));
    assert_eq!(app.live.status, BusStatus::Off);
}

#[test]
fn a_round_takes_everything_in_turn() {
    let mut app = fresh();
    app.chat.spawn_chat_turn("hi".to_string());
    app.start_bus();
    app.take_bus_start(BusStart::Running, 0);
    let mut inbox = quiet();
    inbox.chat.events = vec![
        ChatEvent::Attached,
        ChatEvent::Response(ChatReply { kind: "chunk".to_string(), text: "he".to_string() }),
    ];
    inbox.bus.rows.items =
        vec![BusLine { ts_ms: 1, subject: "s".to_string(), summary: "x".to_string() }];
    let work = app.poll(inbox, START);
    assert_eq!(work.len(), 1);
    assert_eq!((work[0].task, work[0].args[0].as_str()), (Task::Send, "hi"));
    assert_eq!(app.chat.lines.last().unwrap().text, "he");
    assert_eq!(app.chat.tick, 1);
    assert_eq!(app.live.status, BusStatus::Streaming);
}

#[test]
fn a_dream_that_is_done_asks_for_fresh_readings() {
    let mut app = fresh();
    app.start_dream("deep", START);
    let mut inbox = quiet();
    inbox.bus.dream = DreamNews::Reply(Ok("3 cycles".to_string()));
    let work = app.poll(inbox, START + 1_500);
    assert_eq!(work.len(), 2);
    assert!(matches!(&app.dreamer.run, DreamRunState::Done { mode, took: 1_500, summary }
        if mode == "deep" && summary == "3 cycles"));
    assert!(!app.dreamer.busy);
}

#[test]
fn a_dream_that_fails_says_why() {
    let mut app = fresh();
    app.start_dream("lite", START);
    let mut inbox = no_bus();
    inbox.dream = DreamNews::Reply(Err("no".to_string()));
    assert!(app.poll_bus(inbox, START).is_empty());
    assert!(matches!(&app.dreamer.run, DreamRunState::Failed { mode, error }
        if mode == "lite" && error == "no"));
    assert_eq!(app.start_dream("deep", START).len(), 1);
}

#[test]
fn a_dream_that_is_lost_can_be_asked_for_again() {
    let mut app = fresh();
    app.start_dream("lite", START);
    let mut inbox = no_bus();
    inbox.dream = DreamNews::Lost;
    app.poll_bus(inbox, START);
    assert!(!app.dreamer.busy);
    assert!(matches!(&app.dreamer.run, DreamRunState::Running { .. }));
    let mut late = no_bus();
    late.dream = DreamNews::Reply(Ok("x".to_string()));
    assert!(app.poll_bus(late, START).is_empty());
    assert!(matches!(&app.dreamer.run, DreamRunState::Running { .. }));
}

#[test]
fn the_clock_ticks_at_the_end_of_a_round() {
    let mut app = fresh();
    app.active_tab = 1;
    assert_eq!(app.poll(quiet(), START).len(), 2);
    assert_eq!(app.poll(quiet(), START + 6_000_000_000).len(), 0);
}

#[test]
fn plugins_stream_into_the_conversation() {
    let mut app = fresh();
    app.chat.spawn_plugin_turn(Plugin::Code, "x");
    app.take_plugin_probe(Plugin::Code, true);
    let mut inbox = quiet();
    inbox.plugin = Batch { items: vec!["done".to_string()], closed: true };
    app.poll(inbox, START);
    assert_eq!(app.chat.lines.last().unwrap().text, "done");
    assert_eq!(app.chat.pending, Pending::Idle);
    app.poll_plugin(Batch { items: vec!["late".to_string()], closed: false });
    assert_eq!(app.chat.lines.last().unwrap().text, "done");
}

#[test]
fn a_conversation_is_polled_by_itself() {
    let mut app = fresh();
    app.chat.spawn_chat_turn("hi".to_string());
    let lost = ChatInbox { events: vec![], lost: true, answer: None };
    assert!(app.poll_chat(lost).is_empty());
    assert!(app.chat.child.is_none());
}

#[test]
fn time_does_not_run_backwards() {
    assert_eq!(since(5, 8), 3);
    assert_eq!(since(8, 5), 0);
}

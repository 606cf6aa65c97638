use kannaka_tui::app::{tab_after, tab_before, App};
use kannaka_tui::chat::{ChatWho, Pending};
use kannaka_tui::dream::DreamRunState;
use kannaka_tui::effect::{Effect, Plugin, Task};
use kannaka_tui::live::{BusStart, BusStatus};
use kannaka_tui::model::{Key, KeyCode, KeyMotion, Modifiers, News, Role};
use kannaka_tui::reply::{MemoryEntry, Status};

const START: u64 = 60_000_000_000;

fn fresh() -> App {
    App::new("nova".to_string(), "kannaka".to_string(), START)
}

fn on_tab(tab: usize) -> App {
    let mut app = fresh();
    app.active_tab = tab;
    app
}

fn bare(code: KeyCode) -> Key {
    Key { modifiers: Modifiers::Bare, code }
}

fn press(app: &mut App, code: KeyCode) -> Vec<Effect> {
    assert!(app.accepts_key(bare(code)));
    app.handle_key(bare(code), START)
}

fn enter(app: &mut App, line: &str) -> Vec<Effect> {
    for c in line.chars() {
        press(app, KeyCode::Char(c));
    }
    press(app, KeyCode::Enter)
}

fn done(effects: &[Effect]) -> Vec<(Task, Vec<&str>)> {
    effects
        .iter()
        .map(|e| (e.task, e.args.iter().map(String::as_str).collect()))
        .collect()
}

fn log(app: &App) -> Vec<(Role, &str)> {
    app.messages.iter().skip(1).map(|m| (m.role, m.content.as_str())).collect()
}

fn status() -> Status {
    Status {
        phi: 1,
        xi: 2,
        order: 3,
        memories: 4,
        clusters: 5,
        links: 0,
        level: "Coherent".to_string(),
        active: 6,
    }
}

#[test]
fn the_dashboard_opens_on_the_chat_tab() {
    let app = fresh();
    assert_eq!(app.active_tab, 5);
    assert_eq!(app.messages.len(), 1);
    assert_eq!(app.messages[0].role, Role::System);
    assert_eq!(
        app.messages[0].content,
        "Welcome to Kannaka TUI. Agent: nova. Type a command or press F1 for help."
    );
    assert_eq!(app.last_status_poll, 0);
    assert!(app.status.is_none());
    assert!(!app.should_quit && !app.show_help);
    assert_eq!(app.kannaka_bin, "kannaka");
}

#[test]
fn tabs_go_round_both_ways() {
    assert_eq!(tab_after(5), 0);
    assert_eq!(tab_before(0), 5);
    for tab in 0..6 {
        assert_eq!(tab_before(tab_after(tab)), tab);
        assert_eq!(tab_after(tab_before(tab)), tab);
    }
    let mut app = fresh();
    for tab in [0, 1, 2, 3, 4, 5] {
        press(&mut app, KeyCode::Tab);
        assert_eq!(app.active_tab, tab);
    }
    let back = Key { modifiers: Modifiers::Shift, code: KeyCode::BackTab };
    for tab in [4, 3, 2, 1, 0, 5] {
        app.handle_key(back, START);
        assert_eq!(app.active_tab, tab);
    }
    press(&mut app, KeyCode::BackTab);
    assert_eq!(app.active_tab, 0);
    app.handle_key(Key { modifiers: Modifiers::Shift, code: KeyCode::Tab }, START);
    assert_eq!(app.active_tab, 0);
}

#[test]
fn entering_a_tab_asks_for_what_it_shows() {
    let mut app = on_tab(0);
    let work = press(&mut app, KeyCode::Tab);
    assert_eq!(
        done(&work),
        vec![
            (Task::Status, vec!["status", "--envelope"]),
            (Task::Observe, vec!["observe", "--json"])
        ]
    );
    assert_eq!(app.last_status_poll, START);
    let bus = press(&mut app, KeyCode::Tab);
    assert_eq!(done(&bus), vec![(Task::Bus, vec!["swarm", "tail"])]);
    app.take_bus_start(BusStart::Running, 0);
    assert!(press(&mut app, KeyCode::Tab).is_empty());
    assert!(press(&mut app, KeyCode::Tab).is_empty());
    assert!(press(&mut app, KeyCode::Tab).is_empty());
    assert!(press(&mut app, KeyCode::Tab).is_empty());
    assert!(app.on_tab_enter(START).is_empty());
}

#[test]
fn polls_do_not_pile_up() {
    let mut app = fresh();
    assert_eq!(app.load_status(START).len(), 1);
    assert_eq!(app.load_status(START + 1).len(), 0);
    assert_eq!(app.last_status_poll, START);
    assert_eq!(app.load_observe().len(), 1);
    assert_eq!(app.load_observe().len(), 0);
    app.poll_async_data(News::Reply(Ok(status())), News::Lost);
    assert_eq!(app.refresh(START + 2).len(), 2);
}

#[test]
fn readings_arrive() {
    let mut app = fresh();
    app.poll_async_data(News::Reply(Ok(status())), News::Nothing);
    assert!(app.status.is_none());
    app.refresh(START);
    app.poll_async_data(News::Nothing, News::Nothing);
    assert!(app.status_pending && app.observe_pending);
    let memory = MemoryEntry { content: "m".to_string(), amplitude: 9 };
    app.poll_async_data(News::Reply(Ok(status())), News::Reply(Ok((7, vec![memory]))));
    assert!(!app.status_pending && !app.observe_pending);
    let s = app.status.as_ref().unwrap();
    assert_eq!((s.links, s.memories, s.level.as_str()), (7, 4, "Coherent"));
    assert_eq!(app.memories[0].content, "m");
}

#[test]
fn failed_polls_are_told() {
    let mut app = fresh();
    app.refresh(START);
    app.poll_async_data(
        News::Reply(Err("status failed: x".to_string())),
        News::Reply(Err("observe failed".to_string())),
    );
    assert_eq!(
        log(&app),
        vec![(Role::Error, "status failed: x"), (Role::Error, "observe failed")]
    );
    assert!(!app.status_pending && !app.observe_pending);
    app.refresh(START);
    app.poll_async_data(News::Lost, News::Lost);
    assert!(!app.status_pending && !app.observe_pending);
    assert_eq!(log(&app).len(), 2);
}

#[test]
fn the_status_tab_polls_every_five_seconds() {
    let mut app = on_tab(1);
    app.load_status(START);
    app.poll_async_data(News::Reply(Ok(status())), News::Nothing);
    assert_eq!(app.tick(START + 5_000_000_000).len(), 0);
    assert_eq!(app.tick(START + 5_000_000_001).len(), 2);
    let mut other = on_tab(0);
    assert_eq!(other.tick(START + 60_000_000_000).len(), 0);
}

#[test]
fn any_key_closes_the_help_overlay() {
    for key in [
        bare(KeyCode::Char('q')),
        bare(KeyCode::Enter),
        bare(KeyCode::F(1)),
        bare(KeyCode::Tab),
        Key { modifiers: Modifiers::Control, code: KeyCode::Char('c') },
        bare(KeyCode::Other),
    ] {
        let mut app = fresh();
        press(&mut app, KeyCode::F(1));
        assert!(app.show_help);
        assert!(app.accepts_key(key));
        assert!(app.handle_key(key, START).is_empty());
        assert!(!app.show_help && !app.should_quit);
        assert_eq!((app.bar.text.as_str(), app.active_tab), ("", 5));
    }
}

#[test]
fn q_and_escape_quit_only_from_an_empty_bar() {
    for code in [KeyCode::Char('q'), KeyCode::Char('Q'), KeyCode::Esc] {
        let mut app = fresh();
        press(&mut app, code);
        assert!(app.should_quit);
        let mut typing = fresh();
        press(&mut typing, KeyCode::Char('x'));
        press(&mut typing, code);
        assert!(!typing.should_quit);
    }
    let mut app = fresh();
    app.handle_key(Key { modifiers: Modifiers::Shift, code: KeyCode::Char('Q') }, START);
    assert!(!app.should_quit);
    assert_eq!(app.bar.text, "Q");
}

#[test]
fn control_c_quits_whatever_is_typed() {
    let mut app = fresh();
    press(&mut app, KeyCode::Char('x'));
    app.handle_key(Key { modifiers: Modifiers::Control, code: KeyCode::Char('c') }, START);
    assert!(app.should_quit);
    assert_eq!(app.bar.text, "x");
}

#[test]
fn only_presses_count() {
    let mut app = fresh();
    app.on_key_event(KeyMotion::Release, bare(KeyCode::Char('x')), START);
    app.on_key_event(KeyMotion::Repeat, bare(KeyCode::Char('x')), START);
    assert_eq!(app.bar.text, "");
    app.on_key_event(KeyMotion::Press, bare(KeyCode::Char('x')), START);
    assert_eq!(app.bar.text, "x");
}

#[test]
fn keys_need_a_character_to_begin_at_the_cursor() {
    let mut app = fresh();
    press(&mut app, KeyCode::Char('\u{e9}'));
    assert_eq!(app.bar.cursor, 1);
    assert!(!app.accepts_key(bare(KeyCode::Char('x'))));
    assert!(!app.accepts_key(bare(KeyCode::Delete)));
    assert!(app.accepts_key(bare(KeyCode::Backspace)));
    assert!(app.accepts_key(bare(KeyCode::End)));
    press(&mut app, KeyCode::Right);
    assert!(app.accepts_key(bare(KeyCode::Char('x'))));
    assert!(!app.accepts_key(bare(KeyCode::Backspace)));
    assert!(app.accepts_key(bare(KeyCode::Delete)));
    press(&mut app, KeyCode::Home);
    assert!(app.accepts_key(bare(KeyCode::Backspace)));
    press(&mut app, KeyCode::Delete);
    assert_eq!(app.bar.text, "");
}

#[test]
fn pages_scroll_by_five() {
    let mut app = fresh();
    press(&mut app, KeyCode::PageDown);
    assert_eq!(app.scroll_offset, 0);
    press(&mut app, KeyCode::PageUp);
    press(&mut app, KeyCode::PageUp);
    assert_eq!(app.scroll_offset, 10);
    press(&mut app, KeyCode::PageDown);
    assert_eq!(app.scroll_offset, 5);
    app.scroll_offset = usize::MAX - 2;
    press(&mut app, KeyCode::PageUp);
    assert_eq!(app.scroll_offset, usize::MAX);
}

#[test]
fn editing_keys_reach_the_bar() {
    let mut app = on_tab(0);
    for c in ['a', 'b', 'c'] {
        press(&mut app, KeyCode::Char(c));
    }
    press(&mut app, KeyCode::Left);
    press(&mut app, KeyCode::Backspace);
    assert_eq!((app.bar.text.as_str(), app.bar.cursor), ("ac", 1));
    press(&mut app, KeyCode::Home);
    press(&mut app, KeyCode::Delete);
    press(&mut app, KeyCode::End);
    assert_eq!((app.bar.text.as_str(), app.bar.cursor), ("c", 1));
    press(&mut app, KeyCode::Other);
    assert_eq!(app.bar.text, "c");
}

#[test]
fn the_dreams_tab_has_hotkeys() {
    let mut app = on_tab(4);
    let work = press(&mut app, KeyCode::Char('D'));
    assert_eq!(done(&work), vec![(Task::Dream, vec!["dream", "--mode", "deep"])]);
    assert!(matches!(&app.dreamer.run,
        DreamRunState::Running { mode, started } if mode == "deep" && *started == START));
    assert!(press(&mut app, KeyCode::Char('l')).is_empty());
    let mut lite = on_tab(4);
    let quick = press(&mut lite, KeyCode::Char('l'));
    assert_eq!(done(&quick), vec![(Task::Dream, vec!["dream", "--mode", "lite"])]);
    let mut typing = on_tab(4);
    press(&mut typing, KeyCode::Char('x'));
    assert!(press(&mut typing, KeyCode::Char('d')).is_empty());
    assert_eq!(typing.bar.text, "xd");
    let mut elsewhere = on_tab(3);
    press(&mut elsewhere, KeyCode::Char('d'));
    assert_eq!(elsewhere.bar.text, "d");
}

#[test]
fn a_dream_is_commanded_once() {
    let mut app = on_tab(0);
    let work = enter(&mut app, "dream lite");
    assert_eq!(
        done(&work),
        vec![(Task::Bus, vec!["swarm", "tail"]), (Task::Dream, vec!["dream", "--mode", "lite"])]
    );
    assert!(matches!(&app.dreamer.run, DreamRunState::Running { mode, .. } if mode == "lite"));
    assert!(app.dreamer.busy);
    assert_eq!(app.live.status, BusStatus::Connecting);
    assert!(enter(&mut app, "dream").is_empty());
    assert_eq!(
        log(&app),
        vec![
            (Role::User, "dream --mode lite"),
            (
                Role::System,
                "Dream cycle started in background \u{2014} Dreams tab for progress."
            ),
            (Role::System, "A dream is already running \u{2014} wait for it to finish.")
        ]
    );
}

#[test]
fn a_dream_without_a_mode_is_deep() {
    let mut app = on_tab(0);
    enter(&mut app, "dream");
    assert!(matches!(&app.dreamer.run, DreamRunState::Running { mode, .. } if mode == "deep"));
    assert_eq!(log(&app)[0], (Role::User, "dream --mode deep"));
    let mut direct = on_tab(0);
    assert_eq!(direct.execute_dream("lite", START).len(), 2);
}

#[test]
fn commands_are_announced_and_started() {
    let mut app = on_tab(0);
    assert_eq!(
        done(&enter(&mut app, "remember \"a b\"")),
        vec![(Task::Remember, vec!["remember", "a b"])]
    );
    assert_eq!(
        done(&enter(&mut app, "/recall x")),
        vec![(Task::Recall, vec!["recall", "x", "--top-k", "5"])]
    );
    assert_eq!(done(&enter(&mut app, "forget 7")), vec![(Task::Forget, vec!["forget", "7"])]);
    assert_eq!(
        done(&enter(&mut app, "stats")),
        vec![(Task::Passthrough(30), vec!["stats"])]
    );
    assert_eq!(
        log(&app),
        vec![
            (Role::User, "remember \"a b\""),
            (Role::User, "recall \"x\""),
            (Role::User, "forget \"7\""),
            (Role::User, "stats"),
            (Role::System, "Running... (up to 30s)")
        ]
    );
    assert_eq!((app.bar.text.as_str(), app.bar.cursor), ("", 0));
    assert_eq!(app.bar.history, vec!["remember \"a b\"", "/recall x", "forget 7", "stats"]);
}

#[test]
fn other_commands_act_at_once() {
    let mut app = on_tab(0);
    assert_eq!(enter(&mut app, "status").len(), 2);
    assert!(enter(&mut app, "hear").is_empty());
    assert_eq!(
        log(&app),
        vec![
            (Role::System, "Status refreshed."),
            (Role::Error, "Usage: hear <file-or-url> [--secs N]")
        ]
    );
    enter(&mut app, "help");
    assert!(app.show_help);
    app.show_help = false;
    enter(&mut app, "exit");
    assert!(app.should_quit);
}

#[test]
fn a_blank_line_stays() {
    let mut app = on_tab(0);
    assert!(enter(&mut app, "   ").is_empty());
    assert_eq!(app.bar.text, "   ");
    assert!(app.bar.history.is_empty());
}

#[test]
fn a_line_that_is_no_command_goes_to_chat() {
    let mut app = on_tab(0);
    app.scroll_offset = 5;
    let work = enter(&mut app, "how are you");
    assert_eq!(done(&work), vec![(Task::Chat, vec!["chat", "--json"])]);
    assert_eq!((app.active_tab, app.scroll_offset), (5, 0));
    let last = app.chat.lines.last().unwrap();
    assert_eq!((last.who, last.text.as_str()), (ChatWho::User, "how are you"));
    assert_eq!(app.chat.pending, Pending::Turn);
}

#[test]
fn a_line_is_dropped_while_an_answer_is_awaited() {
    let mut app = fresh();
    enter(&mut app, "first");
    app.scroll_offset = 5;
    let lines = app.chat.lines.len();
    assert!(enter(&mut app, "second").is_empty());
    assert_eq!(app.chat.lines.len(), lines);
    assert_eq!((app.bar.text.as_str(), app.scroll_offset), ("", 5));
    assert_eq!(app.bar.history, vec!["first", "second"]);
    app.active_tab = 0;
    assert!(enter(&mut app, "third").is_empty());
    assert_eq!((app.active_tab, app.chat.lines.len(), app.scroll_offset), (5, lines, 5));
}

#[test]
fn the_chat_tab_takes_plugins_but_no_commands() {
    let mut app = fresh();
    assert_eq!(
        done(&enter(&mut app, "/code  fix it ")),
        vec![(Task::Plugin(Plugin::Code), vec!["fix it"])]
    );
    assert_eq!(
        done(&enter(&mut app, "/topus x")),
        vec![(Task::Plugin(Plugin::Topus), vec!["x"])]
    );
    assert_eq!(app.chat.lines[1].text, "/code fix it");
    enter(&mut app, "exit");
    assert!(!app.should_quit);
    assert_eq!(app.chat.lines.last().unwrap().text, "exit");
    let mut elsewhere = on_tab(0);
    enter(&mut elsewhere, "/code x");
    assert_eq!(elsewhere.active_tab, 5);
    assert_eq!(elsewhere.chat.lines.last().unwrap().text, "/code x");
}

#[test]
fn the_up_key_brings_an_entered_line_back() {
    let mut app = on_tab(0);
    enter(&mut app, " stats ");
    press(&mut app, KeyCode::Up);
    assert_eq!((app.bar.text.as_str(), app.bar.cursor), ("stats", 5));
    press(&mut app, KeyCode::Down);
    assert_eq!(app.bar.text, "");
}

use kannaka_tui::app::App;
use kannaka_tui::chat::{Chat, ChatEvent, ChatWho};
use kannaka_tui::command::{parse_command, strip_slash, Command};
use kannaka_tui::dream::DreamNews;
use kannaka_tui::live::Batch;
use kannaka_tui::model::{Key, KeyCode, Modifiers, News, Role};
use kannaka_tui::reply::ChatReply;
use kannaka_tui::round::{BusInbox, ChatInbox, Inbox};
use kannaka_tui::screen::help::{help_area, render_help_overlay};
use kannaka_tui::screen::layout::Area;

const START: u64 = 60_000_000_000;

fn busy() -> App {
    let mut app = App::new("nova".to_string(), "kannaka".to_string(), START);
    app.active_tab = 0;
    app.tell(Role::User, "one");
    app.chat.say(ChatWho::User, "two");
    app.bar.record("three");
    for c in "stats".chars() {
        app.bar.type_char(c);
    }
    app
}

fn keys() -> Vec<Key> {
    let codes = [
        KeyCode::Char('x'),
        KeyCode::Char('q'),
        KeyCode::F(1),
        KeyCode::Tab,
        KeyCode::BackTab,
        KeyCode::Enter,
        KeyCode::Backspace,
        KeyCode::Delete,
        KeyCode::Left,
        KeyCode::Right,
        KeyCode::Home,
        KeyCode::End,
        KeyCode::Up,
        KeyCode::Down,
        KeyCode::PageUp,
        KeyCode::PageDown,
        KeyCode::Esc,
        KeyCode::Other,
    ];
    let modifiers =
        [Modifiers::Bare, Modifiers::Shift, Modifiers::Control, Modifiers::Other];
    let mut all = Vec::new();
    for code in codes {
        for m in modifiers {
            all.push(Key { modifiers: m, code });
        }
    }
    all
}

#[test]
fn keys_only_ever_add() {
    for key in keys() {
        let mut app = busy();
        assert!(app.accepts_key(key));
        app.handle_key(key, START);
        assert_eq!(app.messages[1].content, "one");
        assert_eq!(app.chat.lines[1].text, "two");
        assert_eq!(app.bar.history[0], "three");
        assert!(app.status.is_none() && app.memories.is_empty());
        assert_eq!(app.agent_name, "nova");
    }
}

#[test]
fn ascii_text_can_be_edited_anywhere() {
    for at in 0..6 {
        for key in keys() {
            let mut app = busy();
            app.bar.home();
            for _ in 0..at {
                app.bar.right();
            }
            assert!(app.accepts_key(key));
        }
    }
}

#[test]
fn switching_tabs_keeps_the_text() {
    let mut app = busy();
    app.handle_key(Key { modifiers: Modifiers::Bare, code: KeyCode::Tab }, START);
    assert_eq!(app.active_tab, 1);
    assert_eq!((app.bar.text.as_str(), app.bar.cursor), ("stats", 5));
    assert_eq!((app.messages.len(), app.chat.lines.len()), (2, 2));
}

#[test]
fn rounds_keep_the_bar() {
    let mut app = busy();
    app.scroll_offset = 3;
    app.refresh(START);
    let inbox = Inbox {
        chat: ChatInbox { events: vec![ChatEvent::Ready], lost: true, answer: None },
        status: News::Reply(Err("e".to_string())),
        observed: News::Lost,
        bus: BusInbox {
            rows: Batch { items: vec![], closed: true },
            agents: Batch { items: vec![], closed: true },
            dreams: Batch { items: vec![], closed: true },
            dream: DreamNews::Lost,
        },
        plugin: Batch { items: vec!["x".to_string()], closed: true },
    };
    app.poll(inbox, START);
    assert_eq!((app.bar.text.as_str(), app.bar.cursor), ("stats", 5));
    assert_eq!((app.active_tab, app.scroll_offset), (0, 3));
    assert!(!app.should_quit && !app.show_help);
    assert_eq!(app.messages.len(), 3);
}

#[test]
fn the_child_lives_until_it_closes() {
    let mut chat = Chat::new();
    chat.ensure_chat_child();
    let reply = |kind: &str| {
        ChatEvent::Response(ChatReply { kind: kind.to_string(), text: "t".to_string() })
    };
    let events = vec![
        ChatEvent::Ready,
        reply("error"),
        ChatEvent::Attached,
        reply("chunk"),
        reply("chat"),
        reply("slash"),
    ];
    chat.poll_chat(events, false, None);
    let child = chat.child.unwrap();
    assert!(child.attached && child.ready);
}

#[test]
fn a_slash_makes_no_difference() {
    for line in ["status", "help", "dream", "quit"] {
        let slashed = format!("/{}", line);
        let (a, b) = (parse_command(&strip_slash(line)), parse_command(&strip_slash(&slashed)));
        assert!(matches!(
            (a, b),
            (Command::Refresh, Command::Refresh)
                | (Command::Help, Command::Help)
                | (Command::Dream(_), Command::Dream(_))
                | (Command::Quit, Command::Quit)
        ));
    }
}

#[test]
fn the_help_overlay_has_a_row_for_each_line() {
    let lines = render_help_overlay().lines.len() as u16;
    for height in [50_u16, 51, 200] {
        let area = help_area(Area { x: 0, y: 0, width: 100, height });
        assert!(lines + 2 <= area.height);
        assert!(area.y >= 2 && area.y + area.height + 2 <= height);
    }
}

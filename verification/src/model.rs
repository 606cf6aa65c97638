//! The state of the dashboard as a mathematical value, and how it changes.

use crate::chat::{
    child_work, said, turn_routed, turn_work, with_child, ChatView, ChatWho, Pending,
};
use crate::command::{command_of, without_slash, CommandView};
use crate::dream::{dream_wanted, dream_work, elapsed, DreamerView};
use crate::effect::{work, EffectView, Plugin, Task};
use crate::input::{
    backspaced, boundary, byte_len, cleared, deleted, moved_left, moved_right, newer, older,
    recorded, showing, typed, InputView,
};
use crate::live::{bus_wanted, bus_work, LiveView};
use crate::reply::{MemoryView, StatusView};
use crate::text::{after, digits, has_prefix, trimmed, Edge};
use vstd::prelude::*;

verus! {

// ---------------------------------------------------------------------------
// State
// ---------------------------------------------------------------------------

/// The number of tabs.
pub const TAB_COUNT: usize = 6;

/// The place of the status tab.
pub const STATUS_TAB: usize = 1;

/// The place of the dreams tab.
pub const DREAMS_TAB: usize = 4;

/// The place of the chat tab, where the dashboard opens.
pub const CHAT_TAB: usize = 5;

/// What a message of the command log is.
#[derive(Clone, Copy, Debug, PartialEq, Eq, Structural)]
pub enum Role {
    User,
    System,
    Result,
    Error,
}

/// A message of the command log.
pub struct Message {
    pub role: Role,
    pub content: String,
}

/// The model of a [`Message`].
pub struct MessageView {
    pub role: Role,
    pub content: Seq<char>,
}

impl View for Message {
    type V = MessageView;

    open spec fn view(&self) -> MessageView {
        MessageView { role: self.role, content: self.content@ }
    }
}

/// The models of a list of messages.
pub open spec fn messages_view(v: Seq<Message>) -> Seq<MessageView> {
    v.map_values(|m: Message| m@)
}

/// The model of the dashboard. Times are in nanoseconds.
#[verifier::ext_equal]
pub struct AppView {
    pub active_tab: usize,
    pub bar: InputView,
    pub messages: Seq<MessageView>,
    pub memories: Seq<MemoryView>,
    pub status: Option<StatusView>,
    pub agent_name: Seq<char>,
    pub kannaka_bin: Seq<char>,
    pub should_quit: bool,
    pub show_help: bool,
    pub scroll_offset: usize,
    pub last_status_poll: u64,
    pub status_pending: bool,
    pub observe_pending: bool,
    pub chat: ChatView,
    pub live: LiveView,
    pub dreamer: DreamerView,
}

/// A change of the dashboard with the work that it calls for.
pub struct Step {
    pub app: AppView,
    pub work: Seq<EffectView>,
}

/// No change.
pub open spec fn still(a: AppView) -> Step {
    Step { app: a, work: seq![] }
}

/// The dashboard with a message more in the command log.
pub open spec fn told(a: AppView, role: Role, content: Seq<char>) -> AppView {
    AppView { messages: a.messages.push(MessageView { role, content }), ..a }
}

// ---------------------------------------------------------------------------
// Background polls
// ---------------------------------------------------------------------------

/// The dashboard once a status has been asked for; one that is awaited is
/// not asked for again.
pub open spec fn status_wanted(a: AppView, now: u64) -> Step {
    if a.status_pending {
        still(a)
    } else {
        Step {
            app: AppView { status_pending: true, last_status_poll: now, ..a },
            work: seq![work(Task::Status, seq!["status"@, "--envelope"@])],
        }
    }
}

/// The dashboard once an observation has been asked for; one that is awaited
/// is not asked for again.
pub open spec fn observe_wanted(a: AppView) -> Step {
    if a.observe_pending {
        still(a)
    } else {
        Step {
            app: AppView { observe_pending: true, ..a },
            work: seq![work(Task::Observe, seq!["observe"@, "--json"@])],
        }
    }
}

/// The dashboard once both have been asked for.
pub open spec fn refreshed(a: AppView, now: u64) -> Step {
    let s = status_wanted(a, now);
    let o = observe_wanted(s.app);
    Step { app: o.app, work: s.work + o.work }
}

/// The dashboard after a tick of its clock: on the status tab both are asked
/// for again when more than five seconds have passed.
pub open spec fn ticked(a: AppView, now: u64) -> Step {
    if a.active_tab == STATUS_TAB && elapsed(a.last_status_poll, now) > 5_000_000_000 {
        refreshed(a, now)
    } else {
        still(a)
    }
}

/// What is heard of a background poll.
pub enum News<T> {
    /// Nothing yet.
    Nothing,
    /// Its answer.
    Reply(Result<T, String>),
    /// That there will be none.
    Lost,
}

/// The model of what is heard of a background poll.
pub enum NewsView<V> {
    Nothing,
    Reply(Result<V, Seq<char>>),
    Lost,
}

/// The dashboard after what was heard of a status.
pub open spec fn status_heard(a: AppView, news: NewsView<StatusView>) -> AppView {
    if !a.status_pending {
        a
    } else {
        match news {
            NewsView::Nothing => a,
            NewsView::Reply(Ok(s)) => AppView { status: Some(s), status_pending: false, ..a },
            NewsView::Reply(Err(e)) => AppView {
                status_pending: false,
                ..told(a, Role::Error, e)
            },
            NewsView::Lost => AppView { status_pending: false, ..a },
        }
    }
}

/// A status, where there is one, with a number of links.
pub open spec fn with_links(status: Option<StatusView>, links: u64) -> Option<StatusView> {
    match status {
        Some(s) => Some(StatusView { links, ..s }),
        None => None,
    }
}

/// The dashboard after what was heard of an observation.
pub open spec fn observe_heard(a: AppView, news: NewsView<(u64, Seq<MemoryView>)>) -> AppView {
    if !a.observe_pending {
        a
    } else {
        match news {
            NewsView::Nothing => a,
            NewsView::Reply(Ok((links, memories))) => AppView {
                status: with_links(a.status, links),
                memories,
                observe_pending: false,
                ..a
            },
            NewsView::Reply(Err(e)) => AppView {
                observe_pending: false,
                ..told(a, Role::Error, e)
            },
            NewsView::Lost => AppView { observe_pending: false, ..a },
        }
    }
}

// ---------------------------------------------------------------------------
// Tabs
// ---------------------------------------------------------------------------

/// The tab behind another, around the end.
pub open spec fn next_tab(tab: usize) -> usize {
    if tab + 1 >= TAB_COUNT {
        0
    } else {
        (tab + 1) as usize
    }
}

/// The tab before another, around the start.
pub open spec fn previous_tab(tab: usize) -> usize {
    if tab == 0 {
        (TAB_COUNT - 1) as usize
    } else {
        (tab - 1) as usize
    }
}

/// The dashboard once a tab has been entered: the status tab asks for fresh
/// readings, the three tabs that live off the bus for its stream.
pub open spec fn tab_entered(a: AppView, now: u64) -> Step {
    if a.active_tab == STATUS_TAB {
        refreshed(a, now)
    } else if 2 <= a.active_tab <= 4 {
        Step { app: AppView { live: bus_wanted(a.live), ..a }, work: bus_work(a.live) }
    } else {
        still(a)
    }
}

// ---------------------------------------------------------------------------
// Dreams
// ---------------------------------------------------------------------------

/// The dashboard once a dream has been asked for.
pub open spec fn dreaming(a: AppView, mode: Seq<char>, now: u64) -> Step {
    Step {
        app: AppView { dreamer: dream_wanted(a.dreamer, mode, now), ..a },
        work: dream_work(a.dreamer, mode),
    }
}

/// The dashboard after the command to dream in a mode.
pub open spec fn dream_commanded(a: AppView, mode: Seq<char>, now: u64) -> Step {
    if a.dreamer.busy {
        still(
            told(
                a,
                Role::System,
                "A dream is already running \u{2014} wait for it to finish."@,
            ),
        )
    } else {
        let b = told(
            told(a, Role::User, "dream --mode "@ + mode),
            Role::System,
            "Dream cycle started in background \u{2014} Dreams tab for progress."@,
        );
        let c = AppView { live: bus_wanted(b.live), ..b };
        let d = dreaming(c, mode, now);
        Step { app: d.app, work: bus_work(b.live) + d.work }
    }
}

// ---------------------------------------------------------------------------
// Entering a line
// ---------------------------------------------------------------------------

/// The dashboard with an empty bar.
pub open spec fn bar_cleared(a: AppView) -> AppView {
    AppView { bar: cleared(a.bar), ..a }
}

/// The dashboard with an empty bar, scrolled to the bottom.
pub open spec fn line_done(a: AppView) -> AppView {
    AppView { bar: cleared(a.bar), scroll_offset: 0, ..a }
}

/// A step that leaves an empty bar, scrolled to the bottom.
pub open spec fn line_done_after(s: Step) -> Step {
    Step { app: line_done(s.app), work: s.work }
}

/// The dashboard with a message of the user on its way to the agent.
pub open spec fn talked(a: AppView, line: Seq<char>) -> Step {
    let c = said(a.chat, ChatWho::User, line);
    Step {
        app: AppView { chat: turn_routed(with_child(c), line), ..a },
        work: child_work(c) + turn_work(with_child(c), line),
    }
}

/// The dashboard with a prompt on its way to a plugin.
pub open spec fn plugin_called(a: AppView, plugin: Plugin, prompt: Seq<char>) -> Step {
    Step {
        app: AppView {
            chat: said(a.chat, ChatWho::User, plugin.slash() + " "@ + prompt),
            ..a
        },
        work: seq![work(Task::Plugin(plugin), seq![prompt])],
    }
}

/// What a line entered on the chat tab does: nothing while an answer is
/// awaited, else it goes to a plugin or to the agent.
pub open spec fn chat_line_entered(a: AppView, line: Seq<char>) -> Step {
    if a.chat.pending != Pending::Idle {
        still(bar_cleared(a))
    } else if has_prefix(line, "/code "@) {
        line_done_after(
            plugin_called(a, Plugin::Code, trimmed(Edge::White, after(line, "/code "@))),
        )
    } else if has_prefix(line, "/topus "@) {
        line_done_after(
            plugin_called(a, Plugin::Topus, trimmed(Edge::White, after(line, "/topus "@))),
        )
    } else {
        line_done_after(talked(a, line))
    }
}

/// What a line entered on another tab does when it is no command: the chat
/// tab opens, and the line goes to the agent unless an answer is awaited.
pub open spec fn sent_to_chat(a: AppView, line: Seq<char>) -> Step {
    let b = AppView { active_tab: CHAT_TAB, ..a };
    if a.chat.pending != Pending::Idle {
        still(bar_cleared(b))
    } else {
        line_done_after(talked(b, line))
    }
}

/// A run of the binary announced in the command log.
pub open spec fn announced(
    a: AppView,
    label: Seq<char>,
    task: Task,
    args: Seq<Seq<char>>,
) -> Step {
    Step { app: told(a, Role::User, label), work: seq![work(task, args)] }
}

/// What a command does before its line leaves the bar.
pub open spec fn commanded(a: AppView, command: CommandView, now: u64) -> Step {
    match command {
        CommandView::Remember(t) => announced(
            a,
            "remember \""@ + t + "\""@,
            Task::Remember,
            seq!["remember"@, t],
        ),
        CommandView::Recall(q) => announced(
            a,
            "recall \""@ + q + "\""@,
            Task::Recall,
            seq!["recall"@, q, "--top-k"@, "5"@],
        ),
        CommandView::Forget(q) => announced(
            a,
            "forget \""@ + q + "\""@,
            Task::Forget,
            seq!["forget"@, q],
        ),
        CommandView::Dream(mode) => dream_commanded(a, mode, now),
        CommandView::Refresh => {
            let s = refreshed(a, now);
            Step { app: told(s.app, Role::System, "Status refreshed."@), work: s.work }
        },
        CommandView::HearUsage => still(
            told(a, Role::Error, "Usage: hear <file-or-url> [--secs N]"@),
        ),
        CommandView::Passthrough { label, args, timeout_secs } => Step {
            app: told(
                told(a, Role::User, label),
                Role::System,
                "Running... (up to "@ + digits(timeout_secs as nat) + "s)"@,
            ),
            work: seq![work(Task::Passthrough(timeout_secs), args)],
        },
        CommandView::Help => still(AppView { show_help: true, ..a }),
        CommandView::Quit => still(AppView { should_quit: true, ..a }),
        CommandView::Chat => still(a),
    }
}

/// What a line entered on a tab other than the chat tab does.
pub open spec fn command_line_entered(a: AppView, line: Seq<char>, now: u64) -> Step {
    let command = command_of(without_slash(line));
    if command is Chat {
        sent_to_chat(a, line)
    } else {
        line_done_after(commanded(a, command, now))
    }
}

/// What the enter key does: a blank line stays, any other line enters the
/// history and is carried out.
#[verifier::opaque]
pub open spec fn submitted(a: AppView, now: u64) -> Step {
    let line = trimmed(Edge::White, a.bar.text);
    if line.len() == 0 {
        still(a)
    } else {
        let b = AppView { bar: recorded(a.bar, line), ..a };
        if a.active_tab == CHAT_TAB {
            chat_line_entered(b, line)
        } else {
            command_line_entered(b, line, now)
        }
    }
}

// ---------------------------------------------------------------------------
// Keys
// ---------------------------------------------------------------------------

/// A key, apart from the modifiers held with it.
#[derive(Clone, Copy, Debug, PartialEq, Eq, Structural)]
pub enum KeyCode {
    Char(char),
    F(u8),
    Tab,
    BackTab,
    Enter,
    Backspace,
    Delete,
    Left,
    Right,
    Home,
    End,
    Up,
    Down,
    PageUp,
    PageDown,
    Esc,
    Other,
}

/// The modifiers held with a key.
#[derive(Clone, Copy, Debug, PartialEq, Eq, Structural)]
pub enum Modifiers {
    /// None at all.
    Bare,
    Shift,
    Control,
    /// Another one, or more than one.
    Other,
}

/// Whether a key went down or up.
#[derive(Clone, Copy, Debug, PartialEq, Eq, Structural)]
pub enum KeyMotion {
    Press,
    Repeat,
    Release,
}

/// A key with its modifiers.
#[derive(Clone, Copy, Debug, PartialEq, Eq, Structural)]
pub struct Key {
    pub modifiers: Modifiers,
    pub code: KeyCode,
}

/// Whether a key is a letter, small or capital, without modifiers.
pub open spec fn is_letter(key: Key, small: char, capital: char) -> bool {
    key.modifiers == Modifiers::Bare && (key.code == KeyCode::Char(small) || key.code
        == KeyCode::Char(capital))
}

/// Whether a key leaves the dashboard when the bar is empty.
pub open spec fn is_quit_key(key: Key) -> bool {
    is_letter(key, 'q', 'Q') || (key.modifiers == Modifiers::Bare && key.code == KeyCode::Esc)
}

/// Whether the cursor stands where a key can edit: typing and deleting need
/// a character to begin at the cursor, the backspace key one before it.
pub open spec fn can_edit(bar: InputView, code: KeyCode) -> bool {
    match code {
        KeyCode::Char(_) => boundary(bar.text, bar.cursor),
        KeyCode::Backspace => bar.cursor > 0 ==> boundary(bar.text, bar.cursor - 1),
        KeyCode::Delete => bar.cursor < byte_len(bar.text) ==> boundary(bar.text, bar.cursor),
        _ => true,
    }
}

/// Whether a key asks to leave whatever the bar holds.
pub open spec fn is_interrupt(key: Key) -> bool {
    key.modifiers == Modifiers::Control && key.code == KeyCode::Char('c')
}

/// Whether a key can be taken: one that edits needs the cursor to stand where
/// it can edit.
pub open spec fn takes_key(a: AppView, key: Key) -> bool {
    a.show_help || is_interrupt(key) || can_edit(a.bar, key.code)
}

/// What an editing or scrolling key does.
pub open spec fn edited(a: AppView, code: KeyCode) -> AppView {
    match code {
        KeyCode::Char(c) => AppView { bar: typed(a.bar, c), ..a },
        KeyCode::Backspace => AppView { bar: backspaced(a.bar), ..a },
        KeyCode::Delete => AppView { bar: deleted(a.bar), ..a },
        KeyCode::Left => AppView { bar: moved_left(a.bar), ..a },
        KeyCode::Right => AppView { bar: moved_right(a.bar), ..a },
        KeyCode::Home => AppView { bar: InputView { cursor: 0, ..a.bar }, ..a },
        KeyCode::End => AppView { bar: showing(a.bar, a.bar.text), ..a },
        KeyCode::Up => AppView { bar: older(a.bar), ..a },
        KeyCode::Down => AppView { bar: newer(a.bar), ..a },
        KeyCode::PageUp => AppView {
            scroll_offset: if a.scroll_offset + 5 > usize::MAX {
                usize::MAX
            } else {
                (a.scroll_offset + 5) as usize
            },
            ..a
        },
        KeyCode::PageDown => AppView {
            scroll_offset: if a.scroll_offset < 5 {
                0
            } else {
                (a.scroll_offset - 5) as usize
            },
            ..a
        },
        _ => a,
    }
}

/// What a key does once no overlay and no hotkey takes it.
pub open spec fn plain_key(a: AppView, key: Key, now: u64) -> Step {
    if is_interrupt(key) {
        still(AppView { should_quit: true, ..a })
    } else if key.code == KeyCode::F(1) {
        still(AppView { show_help: true, ..a })
    } else if key.modifiers == Modifiers::Bare && (key.code == KeyCode::Tab || key.code
        == KeyCode::BackTab) {
        tab_entered(AppView { active_tab: next_tab(a.active_tab), ..a }, now)
    } else if key.modifiers == Modifiers::Shift && key.code == KeyCode::BackTab {
        tab_entered(AppView { active_tab: previous_tab(a.active_tab), ..a }, now)
    } else if key.code == KeyCode::Enter {
        submitted(a, now)
    } else {
        still(edited(a, key.code))
    }
}

/// What a key does: it closes the help overlay; with an empty bar it may be
/// a hotkey of the dreams tab or leave the dashboard; else it edits, scrolls,
/// changes tabs or enters the line.
pub open spec fn key_pressed(a: AppView, key: Key, now: u64) -> Step {
    let bare = a.bar.text.len() == 0;
    if a.show_help {
        still(AppView { show_help: false, ..a })
    } else if a.active_tab == DREAMS_TAB && bare && is_letter(key, 'd', 'D') {
        dreaming(a, "deep"@, now)
    } else if a.active_tab == DREAMS_TAB && bare && is_letter(key, 'l', 'L') {
        dreaming(a, "lite"@, now)
    } else if bare && is_quit_key(key) {
        still(AppView { should_quit: true, ..a })
    } else {
        plain_key(a, key, now)
    }
}

/// What a key that moves does: only a key that goes down counts.
pub open spec fn key_moved(a: AppView, motion: KeyMotion, key: Key, now: u64) -> Step {
    if motion == KeyMotion::Press {
        key_pressed(a, key, now)
    } else {
        still(a)
    }
}

} // verus!

//! The dashboard.

use crate::chat::{Chat, ChatWho, Pending};
use crate::command::{parse_command, strip_slash, Command, CommandView};
use crate::dream::{since, Dreamer};
use crate::effect::{append_effects, effects, no_effects, one_effect, Effect, Plugin, Task};
use crate::input::InputBar;
use crate::live::{bus_started, bus_wanted, bus_work, BusStart, Live};
use crate::model::{
    can_edit, chat_line_entered, command_line_entered, commanded, dream_commanded, dreaming,
    edited, is_interrupt, key_moved, key_pressed, line_done, messages_view, next_tab,
    observe_heard, observe_wanted, plain_key, previous_tab, refreshed, status_heard,
    status_wanted, submitted, tab_entered, takes_key, talked, ticked, told, AppView, Key, KeyCode,
    KeyMotion, Message, MessageView, Modifiers, News, NewsView, Role, CHAT_TAB, DREAMS_TAB,
    STATUS_TAB, TAB_COUNT,
};
use crate::reply::{memories_view, MemoryEntry, MemoryView, Status, StatusView};
use crate::text::{concat2, concat3, decimal, push_text, strip_prefix, texts, trim, two_texts, Edge};
use vstd::prelude::*;

verus! {

/// The dashboard. Times are in nanoseconds of the program's clock.
pub struct App {
    pub active_tab: usize,
    pub bar: InputBar,
    pub messages: Vec<Message>,
    pub memories: Vec<MemoryEntry>,
    pub status: Option<Status>,
    pub agent_name: String,
    pub kannaka_bin: String,
    pub should_quit: bool,
    pub show_help: bool,
    pub scroll_offset: usize,
    pub last_status_poll: u64,
    /// Whether a status is awaited.
    pub status_pending: bool,
    /// Whether an observation is awaited.
    pub observe_pending: bool,
    pub chat: Chat,
    pub live: Live,
    pub dreamer: Dreamer,
}

/// The model of a status that may be missing.
pub open spec fn status_view(s: Option<Status>) -> Option<StatusView> {
    match s {
        Some(s) => Some(s@),
        None => None,
    }
}

impl View for App {
    type V = AppView;

    open spec fn view(&self) -> AppView {
        AppView {
            active_tab: self.active_tab,
            bar: self.bar@,
            messages: messages_view(self.messages@),
            memories: memories_view(self.memories@),
            status: status_view(self.status),
            agent_name: self.agent_name@,
            kannaka_bin: self.kannaka_bin@,
            should_quit: self.should_quit,
            show_help: self.show_help,
            scroll_offset: self.scroll_offset,
            last_status_poll: self.last_status_poll,
            status_pending: self.status_pending,
            observe_pending: self.observe_pending,
            chat: self.chat@,
            live: self.live@,
            dreamer: self.dreamer@,
        }
    }
}

/// The model of what is heard of a status.
pub open spec fn status_news(n: News<Status>) -> NewsView<StatusView> {
    match n {
        News::Nothing => NewsView::Nothing,
        News::Reply(Ok(s)) => NewsView::Reply(Ok(s@)),
        News::Reply(Err(e)) => NewsView::Reply(Err(e@)),
        News::Lost => NewsView::Lost,
    }
}

/// The model of what is heard of an observation.
pub open spec fn observe_news(n: News<(u64, Vec<MemoryEntry>)>) -> NewsView<
    (u64, Seq<MemoryView>),
> {
    match n {
        News::Nothing => NewsView::Nothing,
        News::Reply(Ok((links, memories))) => NewsView::Reply(
            Ok((links, memories_view(memories@))),
        ),
        News::Reply(Err(e)) => NewsView::Reply(Err(e@)),
        News::Lost => NewsView::Lost,
    }
}

/// The tab behind another.
pub fn tab_after(tab: usize) -> (r: usize)
    requires
        tab < TAB_COUNT,
    ensures
        r == next_tab(tab),
        r < TAB_COUNT,
{
    (tab + 1) % TAB_COUNT
}

/// The tab before another.
pub fn tab_before(tab: usize) -> (r: usize)
    requires
        tab < TAB_COUNT,
    ensures
        r == previous_tab(tab),
        r < TAB_COUNT,
{
    if tab == 0 {
        TAB_COUNT - 1
    } else {
        tab - 1
    }
}

impl App {
    /// The parts hold together: a tab is open, the cursor is in the bar, the
    /// agents are in order.
    pub open spec fn wf(&self) -> bool {
        &&& self.active_tab < TAB_COUNT
        &&& self.bar.wf()
        &&& self.live.wf()
    }

    /// The dashboard as it opens: on the chat tab, with a welcome, and with
    /// the last status a minute old.
    pub fn new(agent_name: String, kannaka_bin: String, now: u64) -> (r: App)
        requires
            now >= 60_000_000_000,
        ensures
            r.wf(),
            r.active_tab == CHAT_TAB,
            r@.bar == InputBar::new_view(),
            r@.messages == seq![
                MessageView {
                    role: Role::System,
                    content: "Welcome to Kannaka TUI. Agent: "@ + agent_name@
                        + ". Type a command or press F1 for help."@,
                },
            ],
            r@.memories == Seq::<MemoryView>::empty(),
            r@.status is None,
            r@.agent_name == agent_name@,
            r@.kannaka_bin == kannaka_bin@,
            !r.should_quit && !r.show_help && r.scroll_offset == 0,
            r.last_status_poll == now - 60_000_000_000,
            !r.status_pending && !r.observe_pending,
            r@.chat == Chat::new_view(),
            r@.live == Live::new_view(),
            r@.dreamer == Dreamer::new_view(),
    {
        let welcome = concat3(
            "Welcome to Kannaka TUI. Agent: ",
            agent_name.as_str(),
            ". Type a command or press F1 for help.",
        );
        let mut r = App {
            active_tab: CHAT_TAB,
            bar: InputBar::new(),
            messages: Vec::new(),
            memories: Vec::new(),
            status: None,
            agent_name,
            kannaka_bin,
            should_quit: false,
            show_help: false,
            scroll_offset: 0,
            last_status_poll: now - 60_000_000_000,
            status_pending: false,
            observe_pending: false,
            chat: Chat::new(),
            live: Live::new(),
            dreamer: Dreamer::new(),
        };
        assert(r@.messages =~= Seq::<MessageView>::empty());
        assert(r@.memories =~= Seq::<MemoryView>::empty());
        r.tell(Role::System, welcome.as_str());
        r
    }

    /// Adds a message to the command log.
    pub fn tell(&mut self, role: Role, content: &str)
        requires
            old(self).wf(),
        ensures
            final(self).wf(),
            final(self)@ == told(old(self)@, role, content@),
    {
        self.messages.push(Message { role, content: content.to_owned() });
        assert(self@ =~= told(old(self)@, role, content@));
    }

    /// Asks for a status.
    pub fn load_status(&mut self, now: u64) -> (r: Vec<Effect>)
        requires
            old(self).wf(),
        ensures
            final(self).wf(),
            final(self)@ == status_wanted(old(self)@, now).app,
            effects(r@) == status_wanted(old(self)@, now).work,
    {
        if self.status_pending {
            return no_effects();
        }
        self.status_pending = true;
        self.last_status_poll = now;
        one_effect(Task::Status, two_texts("status", "--envelope"))
    }

    /// Asks for an observation.
    pub fn load_observe(&mut self) -> (r: Vec<Effect>)
        requires
            old(self).wf(),
        ensures
            final(self).wf(),
            final(self)@ == observe_wanted(old(self)@).app,
            effects(r@) == observe_wanted(old(self)@).work,
    {
        if self.observe_pending {
            return no_effects();
        }
        self.observe_pending = true;
        one_effect(Task::Observe, two_texts("observe", "--json"))
    }

    /// Asks for both.
    pub fn refresh(&mut self, now: u64) -> (r: Vec<Effect>)
        requires
            old(self).wf(),
        ensures
            final(self).wf(),
            final(self)@ == refreshed(old(self)@, now).app,
            effects(r@) == refreshed(old(self)@, now).work,
    {
        let mut r = self.load_status(now);
        let more = self.load_observe();
        append_effects(&mut r, more);
        r
    }

    /// Lets the clock tick.
    pub fn tick(&mut self, now: u64) -> (r: Vec<Effect>)
        requires
            old(self).wf(),
        ensures
            final(self).wf(),
            final(self)@ == ticked(old(self)@, now).app,
            effects(r@) == ticked(old(self)@, now).work,
    {
        if self.active_tab == STATUS_TAB && since(self.last_status_poll, now) > 5_000_000_000 {
            self.refresh(now)
        } else {
            no_effects()
        }
    }

    /// Takes what was heard of the two background polls.
    pub fn poll_async_data(
        &mut self,
        status: News<Status>,
        observed: News<(u64, Vec<MemoryEntry>)>,
    )
        requires
            old(self).wf(),
        ensures
            final(self).wf(),
            final(self)@ == observe_heard(
                status_heard(old(self)@, status_news(status)),
                observe_news(observed),
            ),
    {
        self.hear_status(status);
        self.hear_observation(observed);
    }

    fn hear_status(&mut self, news: News<Status>)
        requires
            old(self).wf(),
        ensures
            final(self).wf(),
            final(self)@ == status_heard(old(self)@, status_news(news)),
    {
        if !self.status_pending {
            return;
        }
        match news {
            News::Nothing => {},
            News::Reply(Ok(s)) => {
                self.status = Some(s);
                self.status_pending = false;
            },
            News::Reply(Err(e)) => {
                self.tell(Role::Error, e.as_str());
                self.status_pending = false;
            },
            News::Lost => {
                self.status_pending = false;
            },
        }
    }

    fn hear_observation(&mut self, news: News<(u64, Vec<MemoryEntry>)>)
        requires
            old(self).wf(),
        ensures
            final(self).wf(),
            final(self)@ == observe_heard(old(self)@, observe_news(news)),
    {
        if !self.observe_pending {
            return;
        }
        match news {
            News::Nothing => {},
            News::Reply(Ok((links, memories))) => {
                match self.status.take() {
                    Some(s) => {
                        self.status = Some(Status { links, ..s });
                    },
                    None => {},
                }
                self.memories = memories;
                self.observe_pending = false;
            },
            News::Reply(Err(e)) => {
                self.tell(Role::Error, e.as_str());
                self.observe_pending = false;
            },
            News::Lost => {
                self.observe_pending = false;
            },
        }
    }

    // -----------------------------------------------------------------------
    // Tabs, dreams, commands
    // -----------------------------------------------------------------------

    /// Asks for the stream of the bus.
    pub fn start_bus(&mut self) -> (r: Vec<Effect>)
        requires
            old(self).wf(),
        ensures
            final(self).wf(),
            final(self)@ == (AppView { live: bus_wanted(old(self)@.live), ..old(self)@ }),
            effects(r@) == bus_work(old(self)@.live),
    {
        self.live.start_bus()
    }

    /// Learns how the start of the stream went, at a time in milliseconds
    /// since 1970.
    pub fn take_bus_start(&mut self, start: BusStart, now_ms: i64)
        requires
            old(self).wf(),
        ensures
            final(self).wf(),
            final(self)@ == (AppView {
                live: bus_started(old(self)@.live, start, now_ms),
                ..old(self)@
            }),
    {
        self.live.take_bus_start(start, now_ms);
    }

    /// Does what entering the open tab calls for.
    pub fn on_tab_enter(&mut self, now: u64) -> (r: Vec<Effect>)
        requires
            old(self).wf(),
        ensures
            final(self).wf(),
            final(self)@ == tab_entered(old(self)@, now).app,
            effects(r@) == tab_entered(old(self)@, now).work,
    {
        if self.active_tab == STATUS_TAB {
            self.refresh(now)
        } else if 2 <= self.active_tab && self.active_tab <= 4 {
            self.start_bus()
        } else {
            no_effects()
        }
    }

    /// Asks for a dream.
    pub fn start_dream(&mut self, mode: &str, now: u64) -> (r: Vec<Effect>)
        requires
            old(self).wf(),
        ensures
            final(self).wf(),
            final(self)@ == dreaming(old(self)@, mode@, now).app,
            effects(r@) == dreaming(old(self)@, mode@, now).work,
    {
        self.dreamer.start_dream(mode, now)
    }

    /// Carries out the command to dream in a mode.
    pub fn execute_dream(&mut self, mode: &str, now: u64) -> (r: Vec<Effect>)
        requires
            old(self).wf(),
        ensures
            final(self).wf(),
            final(self)@ == dream_commanded(old(self)@, mode@, now).app,
            effects(r@) == dream_commanded(old(self)@, mode@, now).work,
    {
        if self.dreamer.busy {
            self.tell(
                Role::System,
                "A dream is already running \u{2014} wait for it to finish.",
            );
            return no_effects();
        }
        let label = concat2("dream --mode ", mode);
        self.tell(Role::User, label.as_str());
        self.tell(
            Role::System,
            "Dream cycle started in background \u{2014} Dreams tab for progress.",
        );
        let mut r = self.start_bus();
        let more = self.start_dream(mode, now);
        append_effects(&mut r, more);
        r
    }

    /// Begins to store a memory.
    pub fn execute_remember(&mut self, text: &str) -> (r: Vec<Effect>)
        requires
            old(self).wf(),
        ensures
            final(self).wf(),
            ({
                let s = commanded(old(self)@, CommandView::Remember(text@), 0);
                final(self)@ == s.app && effects(r@) == s.work
            }),
    {
        let label = concat3("remember \"", text, "\"");
        self.tell(Role::User, label.as_str());
        one_effect(Task::Remember, two_texts("remember", text))
    }

    /// Begins to search by resonance.
    pub fn execute_recall(&mut self, query: &str) -> (r: Vec<Effect>)
        requires
            old(self).wf(),
        ensures
            final(self).wf(),
            ({
                let s = commanded(old(self)@, CommandView::Recall(query@), 0);
                final(self)@ == s.app && effects(r@) == s.work
            }),
    {
        let label = concat3("recall \"", query, "\"");
        self.tell(Role::User, label.as_str());
        let mut args = two_texts("recall", query);
        push_text(&mut args, "--top-k");
        push_text(&mut args, "5");
        assert(texts(args@) =~= seq!["recall"@, query@, "--top-k"@, "5"@]);
        one_effect(Task::Recall, args)
    }

    /// Begins to delete a memory.
    pub fn execute_forget(&mut self, query: &str) -> (r: Vec<Effect>)
        requires
            old(self).wf(),
        ensures
            final(self).wf(),
            ({
                let s = commanded(old(self)@, CommandView::Forget(query@), 0);
                final(self)@ == s.app && effects(r@) == s.work
            }),
    {
        let label = concat3("forget \"", query, "\"");
        self.tell(Role::User, label.as_str());
        one_effect(Task::Forget, two_texts("forget", query))
    }

    /// Begins a run of the binary with the arguments of a command.
    pub fn execute_passthrough(
        &mut self,
        label: &str,
        args: Vec<String>,
        timeout_secs: u64,
    ) -> (r: Vec<Effect>)
        requires
            old(self).wf(),
        ensures
            final(self).wf(),
            ({
                let s = commanded(
                    old(self)@,
                    CommandView::Passthrough { label: label@, args: texts(args@), timeout_secs },
                    0,
                );
                final(self)@ == s.app && effects(r@) == s.work
            }),
    {
        self.tell(Role::User, label);
        let running = concat3("Running... (up to ", decimal(timeout_secs).as_str(), "s)");
        self.tell(Role::System, running.as_str());
        one_effect(Task::Passthrough(timeout_secs), args)
    }

    /// Carries out a command other than to talk.
    fn carry_out(&mut self, command: Command, now: u64) -> (r: Vec<Effect>)
        requires
            old(self).wf(),
        ensures
            final(self).wf(),
            final(self)@ == commanded(old(self)@, command@, now).app,
            effects(r@) == commanded(old(self)@, command@, now).work,
    {
        match command {
            Command::Remember(text) => self.execute_remember(text.as_str()),
            Command::Recall(query) => self.execute_recall(query.as_str()),
            Command::Forget(query) => self.execute_forget(query.as_str()),
            Command::Dream(mode) => self.execute_dream(mode.as_str(), now),
            Command::Refresh => {
                let r = self.refresh(now);
                self.tell(Role::System, "Status refreshed.");
                r
            },
            Command::HearUsage => {
                self.tell(Role::Error, "Usage: hear <file-or-url> [--secs N]");
                no_effects()
            },
            Command::Passthrough { label, args, timeout_secs } => self.execute_passthrough(
                label.as_str(),
                args,
                timeout_secs,
            ),
            Command::Help => {
                self.show_help = true;
                no_effects()
            },
            Command::Quit => {
                self.should_quit = true;
                no_effects()
            },
            Command::Chat => no_effects(),
        }
    }

    // -----------------------------------------------------------------------
    // Entering a line
    // -----------------------------------------------------------------------

    fn end_line(&mut self)
        requires
            old(self).wf(),
        ensures
            final(self).wf(),
            final(self)@ == line_done(old(self)@),
    {
        self.bar.clear();
        self.scroll_offset = 0;
    }

    fn talk(&mut self, line: String) -> (r: Vec<Effect>)
        requires
            old(self).wf(),
        ensures
            final(self).wf(),
            final(self)@ == talked(old(self)@, line@).app,
            effects(r@) == talked(old(self)@, line@).work,
    {
        self.chat.say(ChatWho::User, line.as_str());
        self.chat.spawn_chat_turn(line)
    }

    fn enter_chat_line(&mut self, line: String) -> (r: Vec<Effect>)
        requires
            old(self).wf(),
        ensures
            final(self).wf(),
            final(self)@ == chat_line_entered(old(self)@, line@).app,
            effects(r@) == chat_line_entered(old(self)@, line@).work,
    {
        if self.chat.pending != Pending::Idle {
            self.bar.clear();
            return no_effects();
        }
        let r = if let Some(rest) = strip_prefix(line.as_str(), "/code ") {
            let prompt = trim(Edge::White, rest.as_str());
            self.chat.spawn_plugin_turn(Plugin::Code, prompt.as_str())
        } else if let Some(rest) = strip_prefix(line.as_str(), "/topus ") {
            let prompt = trim(Edge::White, rest.as_str());
            self.chat.spawn_plugin_turn(Plugin::Topus, prompt.as_str())
        } else {
            self.talk(line)
        };
        self.end_line();
        r
    }

    fn enter_command_line(&mut self, line: String, now: u64) -> (r: Vec<Effect>)
        requires
            old(self).wf(),
        ensures
            final(self).wf(),
            final(self)@ == command_line_entered(old(self)@, line@, now).app,
            effects(r@) == command_line_entered(old(self)@, line@, now).work,
    {
        let command = parse_command(strip_slash(line.as_str()).as_str());
        let r = match command {
            Command::Chat => {
                self.active_tab = CHAT_TAB;
                if self.chat.pending != Pending::Idle {
                    self.bar.clear();
                    return no_effects();
                }
                self.talk(line)
            },
            command => self.carry_out(command, now),
        };
        self.end_line();
        r
    }

    /// Enters the line in the bar.
    pub fn submit_input(&mut self, now: u64) -> (r: Vec<Effect>)
        requires
            old(self).wf(),
        ensures
            final(self).wf(),
            final(self)@ == submitted(old(self)@, now).app,
            effects(r@) == submitted(old(self)@, now).work,
    {
        reveal(submitted);
        let line = self.bar.line();
        if line.as_str().is_empty() {
            return no_effects();
        }
        self.bar.record(line.as_str());
        if self.active_tab == CHAT_TAB {
            self.enter_chat_line(line)
        } else {
            self.enter_command_line(line, now)
        }
    }

    // -----------------------------------------------------------------------
    // Keys
    // -----------------------------------------------------------------------

    /// Whether a key can be taken now.
    pub fn accepts_key(&self, key: Key) -> (r: bool)
        requires
            self.wf(),
        ensures
            r == takes_key(self@, key),
    {
        if self.show_help {
            return true;
        }
        if key.modifiers == Modifiers::Control && key.code == KeyCode::Char('c') {
            return true;
        }
        let text = self.bar.text.as_str();
        let at: usize = self.bar.cursor;
        match key.code {
            KeyCode::Char(_) => text.is_char_boundary(at),
            KeyCode::Backspace => at == 0 || text.is_char_boundary(at - 1),
            KeyCode::Delete => at >= text.as_bytes().len() || text.is_char_boundary(at),
            _ => true,
        }
    }

    fn edit(&mut self, code: KeyCode)
        requires
            old(self).wf(),
            can_edit(old(self)@.bar, code),
        ensures
            final(self).wf(),
            final(self)@ == edited(old(self)@, code),
    {
        match code {
            KeyCode::Char(c) => self.bar.type_char(c),
            KeyCode::Backspace => self.bar.backspace(),
            KeyCode::Delete => self.bar.delete(),
            KeyCode::Left => self.bar.left(),
            KeyCode::Right => self.bar.right(),
            KeyCode::Home => self.bar.home(),
            KeyCode::End => self.bar.end(),
            KeyCode::Up => self.bar.up(),
            KeyCode::Down => self.bar.down(),
            KeyCode::PageUp => {
                self.scroll_offset = self.scroll_offset.saturating_add(5);
            },
            KeyCode::PageDown => {
                self.scroll_offset = self.scroll_offset.saturating_sub(5);
            },
            _ => {},
        }
    }

    /// Takes a key that no overlay and no hotkey takes.
    fn take_plain_key(&mut self, key: Key, now: u64) -> (r: Vec<Effect>)
        requires
            old(self).wf(),
            is_interrupt(key) || can_edit(old(self)@.bar, key.code),
        ensures
            final(self).wf(),
            final(self)@ == plain_key(old(self)@, key, now).app,
            effects(r@) == plain_key(old(self)@, key, now).work,
    {
        if key.modifiers == Modifiers::Control && key.code == KeyCode::Char('c') {
            self.should_quit = true;
            return no_effects();
        }
        if key.code == KeyCode::F(1) {
            self.show_help = true;
            return no_effects();
        }
        if key.modifiers == Modifiers::Bare && (key.code == KeyCode::Tab || key.code
            == KeyCode::BackTab) {
            self.active_tab = tab_after(self.active_tab);
            return self.on_tab_enter(now);
        }
        if key.modifiers == Modifiers::Shift && key.code == KeyCode::BackTab {
            self.active_tab = tab_before(self.active_tab);
            return self.on_tab_enter(now);
        }
        if key.code == KeyCode::Enter {
            return self.submit_input(now);
        }
        self.edit(key.code);
        no_effects()
    }

    /// Takes a key.
    pub fn handle_key(&mut self, key: Key, now: u64) -> (r: Vec<Effect>)
        requires
            old(self).wf(),
            takes_key(old(self)@, key),
        ensures
            final(self).wf(),
            final(self)@ == key_pressed(old(self)@, key, now).app,
            effects(r@) == key_pressed(old(self)@, key, now).work,
    {
        if self.show_help {
            self.show_help = false;
            return no_effects();
        }
        let bare: bool = self.bar.text.as_str().is_empty();
        if bare && key.modifiers == Modifiers::Bare {
            if self.active_tab == DREAMS_TAB {
                if key.code == KeyCode::Char('d') || key.code == KeyCode::Char('D') {
                    return self.start_dream("deep", now);
                }
                if key.code == KeyCode::Char('l') || key.code == KeyCode::Char('L') {
                    return self.start_dream("lite", now);
                }
            }
            if key.code == KeyCode::Char('q') || key.code == KeyCode::Char('Q') || key.code
                == KeyCode::Esc {
                self.should_quit = true;
                return no_effects();
            }
        }
        self.take_plain_key(key, now)
    }

    /// Takes a key that moves.
    pub fn on_key_event(&mut self, motion: KeyMotion, key: Key, now: u64) -> (r: Vec<Effect>)
        requires
            old(self).wf(),
            motion == KeyMotion::Press ==> takes_key(old(self)@, key),
        ensures
            final(self).wf(),
            final(self)@ == key_moved(old(self)@, motion, key, now).app,
            effects(r@) == key_moved(old(self)@, motion, key, now).work,
    {
        if motion == KeyMotion::Press {
            self.handle_key(key, now)
        } else {
            no_effects()
        }
    }
}

} // verus!

//! The conversation with the agent.

use crate::effect::{
    append_effects, effects, no_effects, one_effect, work, Effect, EffectView, Plugin, Task,
};
use crate::reply::{text_reply, ChatReply, ChatReplyView};
use crate::text::{
    concat2, concat3, one_text, push_text, same_text, texts, trim, trimmed, two_texts, Edge,
};
use vstd::prelude::*;

verus! {

/// Who speaks.
#[derive(Clone, Copy, Debug, PartialEq, Eq, Structural)]
pub enum ChatWho {
    User,
    Kannaka,
    System,
}

/// A line of the conversation.
pub struct ChatLine {
    pub who: ChatWho,
    pub text: String,
}

/// The model of a [`ChatLine`].
pub struct ChatLineView {
    pub who: ChatWho,
    pub text: Seq<char>,
}

impl View for ChatLine {
    type V = ChatLineView;

    open spec fn view(&self) -> ChatLineView {
        ChatLineView { who: self.who, text: self.text@ }
    }
}

/// The models of the lines of a conversation.
pub open spec fn chat_lines(v: Seq<ChatLine>) -> Seq<ChatLineView> {
    v.map_values(|l: ChatLine| l@)
}

/// Whether an answer is awaited.
#[derive(Clone, Copy, Debug, PartialEq, Eq, Structural)]
pub enum Pending {
    /// None is.
    Idle,
    /// The chat child or a plugin owes one.
    Turn,
    /// A one-shot question does.
    Ask,
}

/// The chat child.
#[derive(Clone, Copy, Debug, PartialEq, Eq, Structural)]
pub struct ChatChild {
    /// Whether lines can be written to it.
    pub attached: bool,
    /// Whether it has said that it is ready.
    pub ready: bool,
}

/// The chat tab.
pub struct Chat {
    pub lines: Vec<ChatLine>,
    pub pending: Pending,
    pub tick: usize,
    /// The chat child, and with it the stream of its events.
    pub child: Option<ChatChild>,
    /// A message that waits for the chat child to be attached.
    pub waiting: Option<String>,
    /// Whether a plugin is running.
    pub plugin: bool,
}

/// The model of a [`Chat`].
#[verifier::ext_equal]
pub struct ChatView {
    pub lines: Seq<ChatLineView>,
    pub pending: Pending,
    pub tick: usize,
    pub child: Option<ChatChild>,
    pub waiting: Option<Seq<char>>,
    pub plugin: bool,
}

impl View for Chat {
    type V = ChatView;

    open spec fn view(&self) -> ChatView {
        ChatView {
            lines: chat_lines(self.lines@),
            pending: self.pending,
            tick: self.tick,
            child: self.child,
            waiting: match self.waiting {
                Some(m) => Some(m@),
                None => None,
            },
            plugin: self.plugin,
        }
    }
}

/// Something that the chat child did.
pub enum ChatEvent {
    /// Lines can be written to it now.
    Attached,
    /// It has loaded the medium.
    Ready,
    /// It wrote a response.
    Response(ChatReply),
    /// It is gone.
    Closed(String),
}

/// The model of a [`ChatEvent`].
pub enum ChatEventView {
    Attached,
    Ready,
    Response(ChatReplyView),
    Closed(Seq<char>),
}

impl View for ChatEvent {
    type V = ChatEventView;

    open spec fn view(&self) -> ChatEventView {
        match *self {
            ChatEvent::Attached => ChatEventView::Attached,
            ChatEvent::Ready => ChatEventView::Ready,
            ChatEvent::Response(r) => ChatEventView::Response(r@),
            ChatEvent::Closed(r) => ChatEventView::Closed(r@),
        }
    }
}

/// How the chat child came to its end.
pub enum ChildEnd {
    /// It could not be started.
    NotStarted(String),
    /// Nothing can be written to it.
    NoPipe,
    /// It writes nothing more.
    Silent,
}

/// The reason that is given for the end of the chat child.
pub open spec fn end_reason(end: ChildEnd) -> Seq<char> {
    match end {
        ChildEnd::NotStarted(e) => "spawn failed: "@ + e@,
        ChildEnd::NoPipe => "no stdin pipe"@,
        ChildEnd::Silent => "child stdout EOF"@,
    }
}

impl ChatEvent {
    /// The event that the chat child is gone.
    pub fn closed(end: ChildEnd) -> (r: ChatEvent)
        ensures
            r@ == ChatEventView::Closed(end_reason(end)),
    {
        ChatEvent::Closed(
            match end {
                ChildEnd::NotStarted(e) => concat2("spawn failed: ", e.as_str()),
                ChildEnd::NoPipe => "no stdin pipe".to_owned(),
                ChildEnd::Silent => "child stdout EOF".to_owned(),
            },
        )
    }
}

/// The models of a list of events.
pub open spec fn chat_events(v: Seq<ChatEvent>) -> Seq<ChatEventView> {
    v.map_values(|e: ChatEvent| e@)
}

// ---------------------------------------------------------------------------
// Turns
// ---------------------------------------------------------------------------

/// The chat with a line more.
pub open spec fn said(c: ChatView, who: ChatWho, text: Seq<char>) -> ChatView {
    ChatView { lines: c.lines.push(ChatLineView { who, text }), ..c }
}

/// The chat with a child: a new one, neither attached nor ready, where there
/// was none.
pub open spec fn with_child(c: ChatView) -> ChatView {
    match c.child {
        Some(_) => c,
        None => ChatView { child: Some(ChatChild { attached: false, ready: false }), ..c },
    }
}

/// The work that a missing child calls for.
pub open spec fn child_work(c: ChatView) -> Seq<EffectView> {
    match c.child {
        Some(_) => seq![],
        None => seq![work(Task::Chat, seq!["chat"@, "--json"@])],
    }
}

/// The chat with a message on its way to the agent.
pub open spec fn turn_routed(c: ChatView, message: Seq<char>) -> ChatView {
    match c.child {
        Some(h) => if h.attached {
            ChatView { pending: Pending::Turn, ..c }
        } else {
            ChatView { pending: Pending::Turn, waiting: Some(message), ..c }
        },
        None => ChatView { pending: Pending::Ask, ..c },
    }
}

/// The work that a message calls for: nothing while the child is not
/// attached, and a one-shot question where there is no child.
pub open spec fn turn_work(c: ChatView, message: Seq<char>) -> Seq<EffectView> {
    match c.child {
        Some(h) => if h.attached {
            seq![work(Task::Send, seq![message])]
        } else {
            seq![]
        },
        None => seq![
            work(
                Task::Ask,
                seq!["ask"@, "--session"@, "kannaka-tui"@, "--quiet-tools"@, message],
            ),
        ],
    }
}

// ---------------------------------------------------------------------------
// Events of the child
// ---------------------------------------------------------------------------

/// Whether the agent spoke last.
pub open spec fn agent_spoke_last(c: ChatView) -> bool {
    c.lines.len() > 0 && c.lines.last().who == ChatWho::Kannaka
}

/// The chat after a response: a chunk continues the agent's line, a chat
/// response ends the turn and is shown unless chunks showed it already, any
/// other response ends the turn as a message of the system.
pub open spec fn after_response(c: ChatView, r: ChatReplyView) -> ChatView {
    if r.kind == "chunk"@ {
        if agent_spoke_last(c) {
            ChatView {
                lines: c.lines.drop_last().push(
                    ChatLineView { who: ChatWho::Kannaka, text: c.lines.last().text + r.text },
                ),
                ..c
            }
        } else {
            said(c, ChatWho::Kannaka, r.text)
        }
    } else if r.kind == "chat"@ {
        if agent_spoke_last(c) {
            ChatView { pending: Pending::Idle, ..c }
        } else {
            ChatView { pending: Pending::Idle, ..said(c, ChatWho::Kannaka, r.text) }
        }
    } else {
        ChatView { pending: Pending::Idle, ..said(c, ChatWho::System, r.text) }
    }
}

/// The chat without its child, and why.
pub open spec fn child_closed(c: ChatView, reason: Seq<char>) -> ChatView {
    ChatView {
        child: None,
        pending: Pending::Idle,
        ..said(
            c,
            ChatWho::System,
            "[chat child closed \u{2014} next turn will respawn: "@ + reason + "]"@,
        )
    }
}

/// The chat after an event of its child.
pub open spec fn after_event(c: ChatView, e: ChatEventView) -> ChatView {
    match e {
        ChatEventView::Attached => match c.child {
            Some(h) => ChatView {
                child: Some(ChatChild { attached: true, ready: h.ready }),
                waiting: None,
                ..c
            },
            None => c,
        },
        ChatEventView::Ready => match c.child {
            Some(h) => ChatView {
                child: Some(ChatChild { attached: h.attached, ready: true }),
                ..c
            },
            None => c,
        },
        ChatEventView::Response(r) => after_response(c, r),
        ChatEventView::Closed(reason) => child_closed(c, reason),
    }
}

/// The work that an event calls for: a child that is attached gets the
/// message that waited for it.
pub open spec fn event_work(c: ChatView, e: ChatEventView) -> Seq<EffectView> {
    if e is Attached && c.child is Some && c.waiting is Some {
        seq![work(Task::Send, seq![c.waiting->0])]
    } else {
        seq![]
    }
}

/// The chat after a series of events, of which none counts behind the child's
/// end; `lost` says that the stream ended with them.
pub open spec fn after_events(c: ChatView, events: Seq<ChatEventView>, lost: bool) -> ChatView
    decreases events.len(),
{
    if events.len() == 0 {
        if lost {
            child_closed(c, "disconnected"@)
        } else {
            c
        }
    } else if events[0] is Closed {
        after_event(c, events[0])
    } else {
        after_events(
            after_event(c, events[0]),
            events.subrange(1, events.len() as int),
            lost,
        )
    }
}

/// The work that a series of events calls for.
pub open spec fn events_work(c: ChatView, events: Seq<ChatEventView>) -> Seq<EffectView>
    decreases events.len(),
{
    if events.len() == 0 || events[0] is Closed {
        seq![]
    } else {
        event_work(c, events[0]) + events_work(
            after_event(c, events[0]),
            events.subrange(1, events.len() as int),
        )
    }
}

/// The chat after the answer to a one-shot question, while one is awaited.
pub open spec fn after_answer(
    c: ChatView,
    answer: Option<Result<Seq<char>, Seq<char>>>,
) -> ChatView {
    if c.pending != Pending::Ask {
        c
    } else {
        match answer {
            Some(Ok(text)) => ChatView {
                pending: Pending::Idle,
                ..said(c, ChatWho::Kannaka, text)
            },
            Some(Err(e)) => ChatView {
                pending: Pending::Idle,
                ..said(c, ChatWho::System, "error: "@ + e)
            },
            None => c,
        }
    }
}

/// The chat after a poll: the events of its child first, where it has one,
/// then the answer to a one-shot question.
pub open spec fn chat_polled(
    c: ChatView,
    events: Seq<ChatEventView>,
    lost: bool,
    answer: Option<Result<Seq<char>, Seq<char>>>,
) -> ChatView {
    after_answer(
        if c.child is Some {
            after_events(c, events, lost)
        } else {
            c
        },
        answer,
    )
}

// ---------------------------------------------------------------------------
// Plugins
// ---------------------------------------------------------------------------

/// The chat once it is known whether a plugin can be run.
pub open spec fn plugin_probed(c: ChatView, plugin: Plugin, found: bool) -> ChatView {
    if found {
        ChatView { pending: Pending::Turn, plugin: true, ..c }
    } else {
        said(
            c,
            ChatWho::System,
            "[plugin '"@ + plugin.program()
                + "' not found on PATH \u{2014} install it and try again. For kannaka-code: cargo install --git https://github.com/NickFlach/kannaka-code]"@,
        )
    }
}

/// The chat with the lines of a plugin, but for the blank ones.
pub open spec fn plugin_said(c: ChatView, lines: Seq<Seq<char>>) -> ChatView
    decreases lines.len(),
{
    if lines.len() == 0 {
        c
    } else {
        let d = plugin_said(c, lines.drop_last());
        if trimmed(Edge::White, lines.last()).len() == 0 {
            d
        } else {
            said(d, ChatWho::System, lines.last())
        }
    }
}

/// The chat after a poll of its plugin, where one is running; `ended` says
/// that it is through.
pub open spec fn plugin_polled(c: ChatView, lines: Seq<Seq<char>>, ended: bool) -> ChatView {
    if !c.plugin {
        c
    } else if ended {
        ChatView { plugin: false, pending: Pending::Idle, ..plugin_said(c, lines) }
    } else {
        plugin_said(c, lines)
    }
}

/// The chat with its spinner moved on while an answer is awaited; behind the
/// last number it begins anew.
pub open spec fn spun(c: ChatView) -> ChatView {
    if c.pending == Pending::Idle {
        c
    } else if c.tick == usize::MAX {
        ChatView { tick: 0, ..c }
    } else {
        ChatView { tick: (c.tick + 1) as usize, ..c }
    }
}

impl Chat {
    /// The model of a conversation that has not begun.
    pub open spec fn new_view() -> ChatView {
        ChatView {
            lines: seq![
                ChatLineView {
                    who: ChatWho::System,
                    text:
                        "Chat with Kannaka. Memories surface via wave resonance each turn. Enter to send."@,
                },
            ],
            pending: Pending::Idle,
            tick: 0,
            child: None,
            waiting: None,
            plugin: false,
        }
    }

    /// A conversation that has not begun.
    pub fn new() -> (r: Chat)
        ensures
            r@ == Chat::new_view(),
    {
        let mut r = Chat {
            lines: Vec::new(),
            pending: Pending::Idle,
            tick: 0,
            child: None,
            waiting: None,
            plugin: false,
        };
        r.say(
            ChatWho::System,
            "Chat with Kannaka. Memories surface via wave resonance each turn. Enter to send.",
        );
        r
    }

    /// Adds a line.
    pub fn say(&mut self, who: ChatWho, text: &str)
        ensures
            final(self)@ == said(old(self)@, who, text@),
    {
        self.lines.push(ChatLine { who, text: text.to_owned() });
        assert(self@ =~= said(old(self)@, who, text@));
    }

    /// Makes sure that there is a chat child.
    pub fn ensure_chat_child(&mut self) -> (r: Vec<Effect>)
        ensures
            final(self)@ == with_child(old(self)@),
            effects(r@) == child_work(old(self)@),
    {
        if self.child.is_some() {
            return no_effects();
        }
        self.child = Some(ChatChild { attached: false, ready: false });
        one_effect(Task::Chat, two_texts("chat", "--json"))
    }

    /// Sends a message on its way, as far as the child is.
    pub fn route_turn(&mut self, message: String) -> (r: Vec<Effect>)
        ensures
            final(self)@ == turn_routed(old(self)@, message@),
            effects(r@) == turn_work(old(self)@, message@),
    {
        match self.child {
            Some(h) => {
                self.pending = Pending::Turn;
                if h.attached {
                    one_effect(Task::Send, one_text(message.as_str()))
                } else {
                    self.waiting = Some(message);
                    no_effects()
                }
            },
            None => {
                self.pending = Pending::Ask;
                let mut args = two_texts("ask", "--session");
                push_text(&mut args, "kannaka-tui");
                push_text(&mut args, "--quiet-tools");
                push_text(&mut args, message.as_str());
                assert(texts(args@) =~= seq![
                    "ask"@,
                    "--session"@,
                    "kannaka-tui"@,
                    "--quiet-tools"@,
                    message@,
                ]);
                one_effect(Task::Ask, args)
            },
        }
    }

    /// Begins a turn: there is a child from here on, and the message is on
    /// its way to it.
    pub fn spawn_chat_turn(&mut self, message: String) -> (r: Vec<Effect>)
        ensures
            final(self)@ == turn_routed(with_child(old(self)@), message@),
            effects(r@) == child_work(old(self)@) + turn_work(with_child(old(self)@), message@),
    {
        let mut r = self.ensure_chat_child();
        let more = self.route_turn(message);
        append_effects(&mut r, more);
        r
    }

    fn take_response(&mut self, reply: ChatReply)
        ensures
            final(self)@ == after_response(old(self)@, reply@),
    {
        let n: usize = self.lines.len();
        let agent_last: bool = if n > 0 {
            self.lines[n - 1].who == ChatWho::Kannaka
        } else {
            false
        };
        assert(agent_last == agent_spoke_last(self@));
        if same_text(reply.kind.as_str(), "chunk") {
            if agent_last {
                match self.lines.pop() {
                    Some(line) => {
                        let text = concat2(line.text.as_str(), reply.text.as_str());
                        self.say(ChatWho::Kannaka, text.as_str());
                        assert(self@ =~= after_response(old(self)@, reply@));
                    },
                    None => {},
                }
            } else {
                self.say(ChatWho::Kannaka, reply.text.as_str());
            }
        } else if same_text(reply.kind.as_str(), "chat") {
            if !agent_last {
                self.say(ChatWho::Kannaka, reply.text.as_str());
            }
            self.pending = Pending::Idle;
        } else {
            self.say(ChatWho::System, reply.text.as_str());
            self.pending = Pending::Idle;
        }
    }

    fn close_child(&mut self, reason: &str)
        ensures
            final(self)@ == child_closed(old(self)@, reason@),
    {
        let text = concat3(
            "[chat child closed \u{2014} next turn will respawn: ",
            reason,
            "]",
        );
        self.say(ChatWho::System, text.as_str());
        self.child = None;
        self.pending = Pending::Idle;
    }

    /// Takes an event of the child.
    pub fn take_event(&mut self, event: ChatEvent) -> (r: Vec<Effect>)
        ensures
            final(self)@ == after_event(old(self)@, event@),
            effects(r@) == event_work(old(self)@, event@),
    {
        match event {
            ChatEvent::Attached => {
                match self.child {
                    Some(h) => {
                        self.child = Some(ChatChild { attached: true, ready: h.ready });
                        match self.waiting.take() {
                            Some(message) => one_effect(
                                Task::Send,
                                one_text(message.as_str()),
                            ),
                            None => no_effects(),
                        }
                    },
                    None => no_effects(),
                }
            },
            ChatEvent::Ready => {
                match self.child {
                    Some(h) => {
                        self.child = Some(ChatChild { attached: h.attached, ready: true });
                    },
                    None => {},
                }
                no_effects()
            },
            ChatEvent::Response(reply) => {
                self.take_response(reply);
                no_effects()
            },
            ChatEvent::Closed(reason) => {
                self.close_child(reason.as_str());
                no_effects()
            },
        }
    }

    fn take_events(&mut self, events: Vec<ChatEvent>, lost: bool) -> (r: Vec<Effect>)
        ensures
            final(self)@ == after_events(old(self)@, chat_events(events@), lost),
            effects(r@) == events_work(old(self)@, chat_events(events@)),
    {
        let ghost start = self@;
        let ghost all = chat_events(events@);
        let ghost given = events@;
        let mut r = no_effects();
        let mut closed: bool = false;
        assert(all.subrange(0, all.len() as int) =~= all);
        assert(effects(r@) + events_work(start, all) =~= events_work(start, all));
        for event in it: events
            invariant
                it.seq() == given,
                all == chat_events(given),
                all.len() == given.len(),
                0 <= it.index() <= all.len(),
                !closed ==> after_events(start, all, lost) == after_events(
                    self@,
                    all.subrange(it.index() as int, all.len() as int),
                    lost,
                ),
                !closed ==> events_work(start, all) == effects(r@) + events_work(
                    self@,
                    all.subrange(it.index() as int, all.len() as int),
                ),
                closed ==> after_events(start, all, lost) == self@,
                closed ==> events_work(start, all) == effects(r@),
        {
            let ghost i = it.index() as int;
            let ghost rest = all.subrange(i, all.len() as int);
            assert(event == given[i]);
            assert(all[i] == event@);
            assert(rest[0] == event@);
            assert(rest.subrange(1, rest.len() as int) =~= all.subrange(i + 1, all.len() as int));
            if !closed {
                let ghost before = effects(r@);
                let ghost here = self@;
                let ends: bool = match &event {
                    ChatEvent::Closed(_) => true,
                    _ => false,
                };
                let more = self.take_event(event);
                append_effects(&mut r, more);
                if ends {
                    closed = true;
                    assert(effects(r@) =~= before);
                    assert(before + events_work(here, rest) =~= before);
                } else {
                    assert(before + events_work(here, rest) =~= effects(r@) + events_work(
                        self@,
                        all.subrange(i + 1, all.len() as int),
                    ));
                }
            }
        }
        if !closed {
            assert(effects(r@) + seq![] =~= effects(r@));
            if lost {
                self.close_child("disconnected");
            }
        }
        r
    }

    /// Takes what came since the last poll: events of the child, and the
    /// answer to a one-shot question.
    pub fn poll_chat(
        &mut self,
        events: Vec<ChatEvent>,
        lost: bool,
        answer: Option<Result<String, String>>,
    ) -> (r: Vec<Effect>)
        ensures
            final(self)@ == chat_polled(
                old(self)@,
                chat_events(events@),
                lost,
                match answer {
                    Some(a) => Some(text_reply(a)),
                    None => None,
                },
            ),
            effects(r@) == if old(self)@.child is Some {
                events_work(old(self)@, chat_events(events@))
            } else {
                seq![]
            },
    {
        let r = if self.child.is_some() {
            self.take_events(events, lost)
        } else {
            no_effects()
        };
        if self.pending == Pending::Ask {
            match answer {
                Some(Ok(text)) => {
                    self.say(ChatWho::Kannaka, text.as_str());
                    self.pending = Pending::Idle;
                },
                Some(Err(e)) => {
                    let text = concat2("error: ", e.as_str());
                    self.say(ChatWho::System, text.as_str());
                    self.pending = Pending::Idle;
                },
                None => {},
            }
        }
        r
    }

    /// Moves the spinner on while an answer is awaited.
    pub fn spin(&mut self)
        ensures
            final(self)@ == spun(old(self)@),
    {
        if self.pending != Pending::Idle {
            if self.tick == usize::MAX {
                self.tick = 0;
            } else {
                self.tick = self.tick + 1;
            }
        }
    }

    /// Begins a turn with a plugin.
    pub fn spawn_plugin_turn(&mut self, plugin: Plugin, prompt: &str) -> (r: Vec<Effect>)
        ensures
            final(self)@ == said(
                old(self)@,
                ChatWho::User,
                plugin.slash() + " "@ + prompt@,
            ),
            effects(r@) == seq![work(Task::Plugin(plugin), seq![prompt@])],
    {
        let text = concat3(plugin.verb(), " ", prompt);
        self.say(ChatWho::User, text.as_str());
        one_effect(Task::Plugin(plugin), one_text(prompt))
    }

    /// Learns whether the plugin of the turn can be run.
    pub fn take_plugin_probe(&mut self, plugin: Plugin, found: bool)
        ensures
            final(self)@ == plugin_probed(old(self)@, plugin, found),
    {
        if found {
            self.pending = Pending::Turn;
            self.plugin = true;
        } else {
            let text = concat3(
                "[plugin '",
                plugin.binary(),
                "' not found on PATH \u{2014} install it and try again. For kannaka-code: cargo install --git https://github.com/NickFlach/kannaka-code]",
            );
            self.say(ChatWho::System, text.as_str());
        }
    }

    /// Takes the lines that a plugin wrote since the last poll.
    pub fn poll_plugin(&mut self, lines: Vec<String>, ended: bool)
        ensures
            final(self)@ == plugin_polled(old(self)@, texts(lines@), ended),
    {
        if !self.plugin {
            return;
        }
        let ghost start = self@;
        let ghost all = texts(lines@);
        let n: usize = lines.len();
        let mut i: usize = 0;
        assert(all.subrange(0, 0) =~= seq![]);
        while i < n
            invariant
                i <= n,
                n == lines@.len(),
                all == texts(lines@),
                self@ == plugin_said(start, all.subrange(0, i as int)),
            decreases n - i,
        {
            let ghost seen = all.subrange(0, i + 1);
            assert(seen.drop_last() =~= all.subrange(0, i as int));
            assert(seen.last() == lines@[i as int]@);
            let body = trim(Edge::White, lines[i].as_str());
            if !body.as_str().is_empty() {
                self.say(ChatWho::System, lines[i].as_str());
            }
            i = i + 1;
        }
        assert(all.subrange(0, n as int) =~= all);
        if ended {
            self.plugin = false;
            self.pending = Pending::Idle;
        }
    }
}

} // verus!

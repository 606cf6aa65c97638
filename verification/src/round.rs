//! One round of the event loop: what came in since the round before.

use crate::app::{observe_news, status_news, App};
use crate::bus::{AgentSnapshot, BusLine, DreamEvent};
use crate::chat::{
    chat_events, chat_polled, events_work, plugin_polled, plugin_probed, spun, ChatEvent,
};
use crate::dream::{dream_done, dream_heard, DreamNews};
use crate::effect::{append_effects, effects, no_effects, Effect, Plugin};
use crate::live::{
    agent_reports, agents_polled, bus_lines, dream_reports, dreams_polled, rows_polled, Batch,
    LiveView,
};
use crate::model::{observe_heard, refreshed, status_heard, still, ticked, AppView, News, Step};
use crate::reply::{text_reply, MemoryEntry, Status};
use crate::text::texts;
use vstd::prelude::*;

verus! {

/// What came of the conversation: events of the chat child, whether its
/// stream ended with them, and the answer to a one-shot question.
pub struct ChatInbox {
    pub events: Vec<ChatEvent>,
    pub lost: bool,
    pub answer: Option<Result<String, String>>,
}

/// What came over the bus, and of the local dream.
pub struct BusInbox {
    pub rows: Batch<BusLine>,
    pub agents: Batch<AgentSnapshot>,
    pub dreams: Batch<DreamEvent>,
    pub dream: DreamNews,
}

/// What came in since the round before.
pub struct Inbox {
    pub chat: ChatInbox,
    pub status: News<Status>,
    pub observed: News<(u64, Vec<MemoryEntry>)>,
    pub bus: BusInbox,
    /// The lines of a plugin, and whether it is through with them.
    pub plugin: Batch<String>,
}

/// The dashboard after what came of the conversation.
pub open spec fn conversed(a: AppView, inbox: ChatInbox) -> Step {
    Step {
        app: AppView {
            chat: chat_polled(
                a.chat,
                chat_events(inbox.events@),
                inbox.lost,
                match inbox.answer {
                    Some(r) => Some(text_reply(r)),
                    None => None,
                },
            ),
            ..a
        },
        work: if a.chat.child is Some {
            events_work(a.chat, chat_events(inbox.events@))
        } else {
            seq![]
        },
    }
}

/// The live view after what came over the bus.
pub open spec fn live_polled(v: LiveView, inbox: BusInbox) -> LiveView {
    dreams_polled(
        agents_polled(
            rows_polled(v, bus_lines(inbox.rows.items@), inbox.rows.closed),
            agent_reports(inbox.agents.items@),
            inbox.agents.closed,
        ),
        dream_reports(inbox.dreams.items@),
        inbox.dreams.closed,
    )
}

/// The dashboard after what came over the bus and of the local dream; a dream
/// that is done asks for fresh readings.
pub open spec fn bus_polled(a: AppView, inbox: BusInbox, now: u64) -> Step {
    let b = AppView {
        live: live_polled(a.live, inbox),
        dreamer: dream_heard(a.dreamer, inbox.dream@, now),
        ..a
    };
    if dream_done(a.dreamer, inbox.dream@) {
        refreshed(b, now)
    } else {
        still(b)
    }
}

/// The dashboard after a round: the conversation and its spinner first, then
/// the background polls, the bus, the plugin, and last the clock.
pub open spec fn round_done(a: AppView, inbox: Inbox, now: u64) -> Step {
    let c = conversed(a, inbox.chat);
    let d = AppView { chat: spun(c.app.chat), ..c.app };
    let e = observe_heard(
        status_heard(d, status_news(inbox.status)),
        observe_news(inbox.observed),
    );
    let f = bus_polled(e, inbox.bus, now);
    let g = AppView {
        chat: plugin_polled(f.app.chat, texts(inbox.plugin.items@), inbox.plugin.closed),
        ..f.app
    };
    let h = ticked(g, now);
    Step { app: h.app, work: c.work + f.work + h.work }
}

impl App {
    /// Takes what came of the conversation.
    pub fn poll_chat(&mut self, inbox: ChatInbox) -> (r: Vec<Effect>)
        requires
            old(self).wf(),
        ensures
            final(self).wf(),
            final(self)@ == conversed(old(self)@, inbox).app,
            effects(r@) == conversed(old(self)@, inbox).work,
    {
        self.chat.poll_chat(inbox.events, inbox.lost, inbox.answer)
    }

    /// Takes what came over the bus and of the local dream.
    pub fn poll_bus(&mut self, inbox: BusInbox, now: u64) -> (r: Vec<Effect>)
        requires
            old(self).wf(),
        ensures
            final(self).wf(),
            final(self)@ == bus_polled(old(self)@, inbox, now).app,
            effects(r@) == bus_polled(old(self)@, inbox, now).work,
    {
        self.live.poll_rows(inbox.rows);
        self.live.poll_agents(inbox.agents);
        self.live.poll_dreams(inbox.dreams);
        if self.dreamer.hear(inbox.dream, now) {
            self.refresh(now)
        } else {
            no_effects()
        }
    }

    /// Learns whether the plugin of the turn can be run.
    pub fn take_plugin_probe(&mut self, plugin: Plugin, found: bool)
        requires
            old(self).wf(),
        ensures
            final(self).wf(),
            final(self)@ == (AppView {
                chat: plugin_probed(old(self)@.chat, plugin, found),
                ..old(self)@
            }),
    {
        self.chat.take_plugin_probe(plugin, found);
    }

    /// Takes the lines of a plugin.
    pub fn poll_plugin(&mut self, lines: Batch<String>)
        requires
            old(self).wf(),
        ensures
            final(self).wf(),
            final(self)@ == (AppView {
                chat: plugin_polled(old(self)@.chat, texts(lines.items@), lines.closed),
                ..old(self)@
            }),
    {
        self.chat.poll_plugin(lines.items, lines.closed);
    }

    /// Takes all that came in since the round before.
    pub fn poll(&mut self, inbox: Inbox, now: u64) -> (r: Vec<Effect>)
        requires
            old(self).wf(),
        ensures
            final(self).wf(),
            final(self)@ == round_done(old(self)@, inbox, now).app,
            effects(r@) == round_done(old(self)@, inbox, now).work,
    {
        let mut r = self.poll_chat(inbox.chat);
        self.chat.spin();
        self.poll_async_data(inbox.status, inbox.observed);
        let from_bus = self.poll_bus(inbox.bus, now);
        append_effects(&mut r, from_bus);
        self.poll_plugin(inbox.plugin);
        let from_clock = self.tick(now);
        append_effects(&mut r, from_clock);
        r
    }
}

} // verus!

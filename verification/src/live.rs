//! The live view of the constellation: the rows of the bus, the agents, the
//! dream reports.

use crate::agents::{by_name, Agents};
use crate::bus::{AgentSnapshot, AgentView, BusLine, BusLineView, DreamEvent, DreamView};
use crate::effect::{effects, no_effects, one_effect, work, Effect, EffectView, Task};
use crate::text::{concat2, two_texts};
use std::collections::VecDeque;
use vstd::prelude::*;

verus! {

/// How many rows of the bus are kept.
pub const BUS_BACKLOG_CAP: usize = 500;

/// How many dream reports are kept.
pub const DREAM_HISTORY_CAP: usize = 30;

/// How the stream of the bus stands.
#[derive(Clone, Copy, Debug, PartialEq, Eq, Structural)]
pub enum BusStatus {
    Off,
    Connecting,
    Streaming,
    Failed,
}

/// How the start of the stream went.
pub enum BusStart {
    /// The binary runs and its lines are read.
    Running,
    /// The binary runs, but its lines cannot be read.
    Unreadable,
    /// The binary could not be run.
    NotRun(String),
}

/// What came over a channel since the last poll.
pub struct Batch<T> {
    pub items: Vec<T>,
    /// Whether the channel is closed behind these items.
    pub closed: bool,
}

/// The live view.
pub struct Live {
    pub lines: VecDeque<BusLine>,
    pub status: BusStatus,
    /// Whether the binary that streams the bus is running.
    pub child: bool,
    /// Whether the channels for rows, agents and dreams are open.
    pub lines_open: bool,
    pub agents_open: bool,
    pub dreams_open: bool,
    pub agents: Agents,
    /// The dream reports, the newest first.
    pub dreams: VecDeque<DreamEvent>,
}

/// The model of a [`Live`] view.
#[verifier::ext_equal]
pub struct LiveView {
    pub lines: Seq<BusLineView>,
    pub status: BusStatus,
    pub child: bool,
    pub lines_open: bool,
    pub agents_open: bool,
    pub dreams_open: bool,
    pub agents: Map<Seq<char>, AgentView>,
    pub dreams: Seq<DreamView>,
}

/// The models of rows of the bus.
pub open spec fn bus_lines(v: Seq<BusLine>) -> Seq<BusLineView> {
    v.map_values(|l: BusLine| l@)
}

/// The models of agent reports.
pub open spec fn agent_reports(v: Seq<AgentSnapshot>) -> Seq<AgentView> {
    v.map_values(|a: AgentSnapshot| a@)
}

/// The models of dream reports.
pub open spec fn dream_reports(v: Seq<DreamEvent>) -> Seq<DreamView> {
    v.map_values(|d: DreamEvent| d@)
}

impl View for Live {
    type V = LiveView;

    open spec fn view(&self) -> LiveView {
        LiveView {
            lines: bus_lines(self.lines@),
            status: self.status,
            child: self.child,
            lines_open: self.lines_open,
            agents_open: self.agents_open,
            dreams_open: self.dreams_open,
            agents: by_name(self.agents@),
            dreams: dream_reports(self.dreams@),
        }
    }
}

// ---------------------------------------------------------------------------
// Starting
// ---------------------------------------------------------------------------

/// The view once the stream has been asked for, unless it runs.
pub open spec fn bus_wanted(v: LiveView) -> LiveView {
    if v.child {
        v
    } else {
        LiveView {
            status: BusStatus::Connecting,
            lines_open: true,
            agents_open: true,
            dreams_open: true,
            ..v
        }
    }
}

/// The work that a stream calls for, unless it runs.
pub open spec fn bus_work(v: LiveView) -> Seq<EffectView> {
    if v.child {
        seq![]
    } else {
        seq![work(Task::Bus, seq!["swarm"@, "tail"@])]
    }
}

/// The row that tells of a stream that could not be started.
pub open spec fn start_error(now_ms: i64, error: Seq<char>) -> BusLineView {
    BusLineView {
        ts_ms: now_ms,
        subject: "tui.error"@,
        summary: "could not spawn 'kannaka swarm tail': "@ + error,
    }
}

/// The view once it is known how the start of the stream went.
pub open spec fn bus_started(v: LiveView, start: BusStart, now_ms: i64) -> LiveView {
    match start {
        BusStart::Running => LiveView { child: true, ..v },
        BusStart::Unreadable => LiveView { status: BusStatus::Failed, ..v },
        BusStart::NotRun(e) => LiveView {
            status: BusStatus::Failed,
            lines: v.lines.push(start_error(now_ms, e@)),
            ..v
        },
    }
}

// ---------------------------------------------------------------------------
// Polling
// ---------------------------------------------------------------------------

/// The last items of a list, at most `n` of them.
pub open spec fn last_items<T>(s: Seq<T>, n: nat) -> Seq<T> {
    if s.len() <= n {
        s
    } else {
        s.subrange(s.len() - n, s.len() as int)
    }
}

/// The first items of a list, at most `n` of them.
pub open spec fn first_items<T>(s: Seq<T>, n: nat) -> Seq<T> {
    if s.len() <= n {
        s
    } else {
        s.subrange(0, n as int)
    }
}

/// The backlog with new items behind the old ones: the last of them all.
pub open spec fn backlog<T>(old_items: Seq<T>, new_items: Seq<T>, cap: nat) -> Seq<T> {
    if new_items.len() == 0 {
        old_items
    } else {
        last_items(old_items + new_items, cap)
    }
}

/// The history with new items before the old ones, the newest first.
pub open spec fn rolling<T>(old_items: Seq<T>, new_items: Seq<T>, cap: nat) -> Seq<T> {
    if new_items.len() == 0 {
        old_items
    } else {
        first_items(new_items.reverse() + old_items, cap)
    }
}

/// The agents with new reports, each in the place of an earlier one.
pub open spec fn agents_heard(
    agents: Map<Seq<char>, AgentView>,
    reports: Seq<AgentView>,
) -> Map<Seq<char>, AgentView>
    decreases reports.len(),
{
    if reports.len() == 0 {
        agents
    } else {
        agents_heard(agents, reports.drop_last()).insert(reports.last().agent_id, reports.last())
    }
}

/// The view with new rows. A closed stream has failed; rows that come while
/// it connects show that it streams.
pub open spec fn rows_polled(v: LiveView, items: Seq<BusLineView>, closed: bool) -> LiveView {
    if !v.lines_open {
        v
    } else {
        LiveView {
            lines: backlog(v.lines, items, BUS_BACKLOG_CAP as nat),
            lines_open: !closed,
            status: if closed {
                BusStatus::Failed
            } else if items.len() > 0 && v.status == BusStatus::Connecting {
                BusStatus::Streaming
            } else {
                v.status
            },
            ..v
        }
    }
}

/// The view with new agent reports.
pub open spec fn agents_polled(v: LiveView, items: Seq<AgentView>, closed: bool) -> LiveView {
    if !v.agents_open {
        v
    } else {
        LiveView { agents: agents_heard(v.agents, items), agents_open: !closed, ..v }
    }
}

/// The view with new dream reports.
pub open spec fn dreams_polled(v: LiveView, items: Seq<DreamView>, closed: bool) -> LiveView {
    if !v.dreams_open {
        v
    } else {
        LiveView {
            dreams: rolling(v.dreams, items, DREAM_HISTORY_CAP as nat),
            dreams_open: !closed,
            ..v
        }
    }
}

impl Live {
    /// The names of the agents are in order, and no more dream reports are
    /// kept than may be.
    pub open spec fn wf(&self) -> bool {
        &&& self.agents.wf()
        &&& self.dreams@.len() <= DREAM_HISTORY_CAP
    }

    /// The model of a view of nothing yet.
    pub open spec fn new_view() -> LiveView {
        LiveView {
            lines: seq![],
            status: BusStatus::Off,
            child: false,
            lines_open: false,
            agents_open: false,
            dreams_open: false,
            agents: Map::empty(),
            dreams: seq![],
        }
    }

    /// Nothing yet.
    pub fn new() -> (r: Live)
        ensures
            r.wf(),
            r@ == Live::new_view(),
    {
        let r = Live {
            lines: VecDeque::new(),
            status: BusStatus::Off,
            child: false,
            lines_open: false,
            agents_open: false,
            dreams_open: false,
            agents: Agents::new(),
            dreams: VecDeque::new(),
        };
        assert(r@.lines =~= seq![]);
        assert(r@.dreams =~= seq![]);
        r
    }

    /// Asks for the stream of the bus.
    pub fn start_bus(&mut self) -> (r: Vec<Effect>)
        requires
            old(self).wf(),
        ensures
            final(self).wf(),
            final(self)@ == bus_wanted(old(self)@),
            effects(r@) == bus_work(old(self)@),
    {
        if self.child {
            return no_effects();
        }
        self.status = BusStatus::Connecting;
        self.lines_open = true;
        self.agents_open = true;
        self.dreams_open = true;
        one_effect(Task::Bus, two_texts("swarm", "tail"))
    }

    /// Learns how the start of the stream went, at a time in milliseconds
    /// since 1970.
    pub fn take_bus_start(&mut self, start: BusStart, now_ms: i64)
        requires
            old(self).wf(),
        ensures
            final(self).wf(),
            final(self)@ == bus_started(old(self)@, start, now_ms),
    {
        match start {
            BusStart::Running => {
                self.child = true;
            },
            BusStart::Unreadable => {
                self.status = BusStatus::Failed;
            },
            BusStart::NotRun(e) => {
                let line = BusLine {
                    ts_ms: now_ms,
                    subject: "tui.error".to_owned(),
                    summary: concat2("could not spawn 'kannaka swarm tail': ", e.as_str()),
                };
                self.lines.push_back(line);
                self.status = BusStatus::Failed;
                assert(self@.lines =~= old(self)@.lines.push(start_error(now_ms, e@)));
            },
        }
    }

    /// Takes new rows of the bus.
    pub fn poll_rows(&mut self, batch: Batch<BusLine>)
        requires
            old(self).wf(),
        ensures
            final(self).wf(),
            final(self)@ == rows_polled(old(self)@, bus_lines(batch.items@), batch.closed),
    {
        if !self.lines_open {
            return;
        }
        let ghost first = self@;
        let ghost given = batch.items@;
        let ghost start = self.lines@;
        let any: bool = batch.items.len() > 0;
        for line in it: batch.items
            invariant
                it.seq() == given,
                self.wf(),
                it.index() == 0 ==> self.lines@ == start,
                it.index() > 0 ==> self.lines@ == last_items(
                    start + given.subrange(0, it.index() as int),
                    BUS_BACKLOG_CAP as nat,
                ),
                self@ == (LiveView { lines: self@.lines, ..first }),
        {
            let ghost i = it.index() as int;
            self.lines.push_back(line);
            let ghost all = start + given.subrange(0, i + 1);
            assert(given.subrange(0, i + 1) =~= given.subrange(0, i).push(line));
            let ghost whole = self.lines@;
            let ghost mut dropped: int = 0;
            while self.lines.len() > BUS_BACKLOG_CAP
                invariant
                    self.wf(),
                    0 <= dropped <= whole.len(),
                    self.lines@ == whole.subrange(dropped, whole.len() as int),
                    dropped > 0 ==> whole.len() - dropped >= BUS_BACKLOG_CAP,
                    self@ == (LiveView { lines: self@.lines, ..first }),
                decreases self.lines@.len(),
            {
                let _ = self.lines.pop_front();
                proof {
                    dropped = dropped + 1;
                }
                assert(self.lines@ =~= whole.subrange(dropped, whole.len() as int));
            }
            assert(self.lines@ =~= last_items(whole, BUS_BACKLOG_CAP as nat));
            assert(last_items(whole, BUS_BACKLOG_CAP as nat) =~= last_items(
                all,
                BUS_BACKLOG_CAP as nat,
            ));
        }
        proof {
            assert(given.subrange(0, given.len() as int) =~= given);
            if given.len() > 0 {
                lemma_backlog_view(start, given);
            } else {
                assert(self@.lines =~= first.lines);
            }
        }
        if batch.closed {
            self.lines_open = false;
            self.status = BusStatus::Failed;
        } else if any && self.status == BusStatus::Connecting {
            self.status = BusStatus::Streaming;
        }
    }

    /// Takes new agent reports.
    pub fn poll_agents(&mut self, batch: Batch<AgentSnapshot>)
        requires
            old(self).wf(),
        ensures
            final(self).wf(),
            final(self)@ == agents_polled(old(self)@, agent_reports(batch.items@), batch.closed),
    {
        if !self.agents_open {
            return;
        }
        let ghost first = self@;
        let ghost given = batch.items@;
        let ghost all = agent_reports(given);
        assert(all.subrange(0, 0) =~= seq![]);
        for snap in it: batch.items
            invariant
                it.seq() == given,
                all == agent_reports(given),
                self.wf(),
                self@ == (LiveView {
                    agents: agents_heard(first.agents, all.subrange(0, it.index() as int)),
                    ..first
                }),
        {
            let ghost i = it.index() as int;
            assert(all.subrange(0, i + 1).drop_last() =~= all.subrange(0, i));
            assert(all.subrange(0, i + 1).last() == snap@);
            self.agents.insert(snap);
        }
        assert(all.subrange(0, all.len() as int) =~= all);
        if batch.closed {
            self.agents_open = false;
        }
    }

    /// Takes new dream reports.
    pub fn poll_dreams(&mut self, batch: Batch<DreamEvent>)
        requires
            old(self).wf(),
        ensures
            final(self).wf(),
            final(self)@ == dreams_polled(old(self)@, dream_reports(batch.items@), batch.closed),
    {
        if !self.dreams_open {
            return;
        }
        let ghost first = self@;
        let ghost given = batch.items@;
        let ghost start = self.dreams@;
        for event in it: batch.items
            invariant
                it.seq() == given,
                self.wf(),
                it.index() == 0 ==> self.dreams@ == start,
                it.index() > 0 ==> self.dreams@ == first_items(
                    given.subrange(0, it.index() as int).reverse() + start,
                    DREAM_HISTORY_CAP as nat,
                ),
                self@ == (LiveView { dreams: self@.dreams, ..first }),
        {
            let ghost i = it.index() as int;
            self.dreams.push_front(event);
            let ghost all = given.subrange(0, i + 1).reverse() + start;
            assert(given.subrange(0, i + 1).reverse() =~= seq![event] + given.subrange(
                0,
                i,
            ).reverse());
            let ghost whole = self.dreams@;
            let ghost mut kept: int = whole.len() as int;
            while self.dreams.len() > DREAM_HISTORY_CAP
                invariant
                    self.agents.wf(),
                    0 <= kept <= whole.len(),
                    self.dreams@ == whole.subrange(0, kept),
                    kept < whole.len() ==> kept >= DREAM_HISTORY_CAP,
                    self@ == (LiveView { dreams: self@.dreams, ..first }),
                decreases self.dreams@.len(),
            {
                let _ = self.dreams.pop_back();
                proof {
                    kept = kept - 1;
                }
                assert(self.dreams@ =~= whole.subrange(0, kept));
            }
            assert(self.dreams@ =~= first_items(whole, DREAM_HISTORY_CAP as nat));
            assert(first_items(whole, DREAM_HISTORY_CAP as nat) =~= first_items(
                all,
                DREAM_HISTORY_CAP as nat,
            ));
        }
        proof {
            assert(given.subrange(0, given.len() as int) =~= given);
            if given.len() > 0 {
                lemma_rolling_view(start, given);
            } else {
                assert(self@.dreams =~= first.dreams);
            }
        }
        if batch.closed {
            self.dreams_open = false;
        }
    }
}

proof fn lemma_backlog_view(start: Seq<BusLine>, given: Seq<BusLine>)
    ensures
        bus_lines(last_items(start + given, BUS_BACKLOG_CAP as nat)) == last_items(
            bus_lines(start) + bus_lines(given),
            BUS_BACKLOG_CAP as nat,
        ),
{
    assert(bus_lines(last_items(start + given, BUS_BACKLOG_CAP as nat)) =~= last_items(
        bus_lines(start) + bus_lines(given),
        BUS_BACKLOG_CAP as nat,
    ));
}

proof fn lemma_rolling_view(start: Seq<DreamEvent>, given: Seq<DreamEvent>)
    ensures
        dream_reports(first_items(given.reverse() + start, DREAM_HISTORY_CAP as nat))
            == first_items(
            dream_reports(given).reverse() + dream_reports(start),
            DREAM_HISTORY_CAP as nat,
        ),
{
    assert(dream_reports(first_items(given.reverse() + start, DREAM_HISTORY_CAP as nat))
        =~= first_items(
        dream_reports(given).reverse() + dream_reports(start),
        DREAM_HISTORY_CAP as nat,
    ));
}

} // verus!

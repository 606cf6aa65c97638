//! What holds of what comes in from outside: replies, rows, reports, lines.

use crate::agents::precedes;
use crate::app::{observe_news, status_news};
use crate::bus::{AgentView, BusLineView, DreamView};
use crate::chat::{
    after_answer, after_event, after_events, agent_spoke_last, chat_polled, end_reason, event_work,
    events_work, plugin_polled, plugin_probed, plugin_said, spun, ChatChild, ChatEventView,
    ChatLineView, ChatView, ChatWho, ChildEnd, Pending,
};
use crate::dream::{dream_heard, DreamNewsView, DreamerView};
use crate::effect::{EffectView, Plugin, Task};
use crate::laws::{law_last_report_counts, law_silent_agents_stay};
use crate::laws::running::one_more;
use crate::live::{
    agent_reports, agents_polled, bus_lines, bus_started, bus_wanted, bus_work, dream_reports,
    dreams_polled, rows_polled, BusStart, BusStatus, LiveView,
};
use crate::model::{
    observe_heard, refreshed, status_heard, tab_entered, ticked, AppView, News, NewsView, Role,
};
use crate::reply::{memories_view, ChatReplyView, MemoryView, StatusView};
use crate::round::{bus_polled, conversed, live_polled, round_done, BusInbox, ChatInbox, Inbox};
use crate::text::{has_part, is_white, law_part_of_a_sum, law_trimming_leaves_the_core, texts, Edge};
use vstd::prelude::*;

verus! {

// ---------------------------------------------------------------------------
// Status and observation
// ---------------------------------------------------------------------------

/// A status that is awaited and comes takes the place of the one before, and
/// is awaited no more; the memories and the command log stay.
pub proof fn law_status_is_taken_as_it_is(a: AppView, s: StatusView)
    requires
        a.status_pending,
    ensures
        status_heard(a, NewsView::Reply(Ok(s))) == (AppView {
            status: Some(s),
            status_pending: false,
            ..a
        }),
{
}

/// An observation that is awaited and comes brings its memories, and these
/// alone: what was held before does not matter. Of the status it changes the
/// number of links, and nothing else.
pub proof fn law_observation_replaces_memories(a: AppView, links: u64, memories: Seq<MemoryView>)
    requires
        a.observe_pending,
    ensures
        ({
            let b = observe_heard(a, NewsView::Reply(Ok((links, memories))));
            &&& b.memories == memories
            &&& !b.observe_pending
            &&& a.status is None ==> b.status is None
            &&& a.status matches Some(s) ==> b.status == Some(StatusView { links, ..s })
            &&& b == (AppView {
                memories: b.memories,
                status: b.status,
                observe_pending: false,
                ..a
            })
        }),
{
}

/// Hearing the same observation twice is hearing it once, and of two
/// observations the later counts.
pub proof fn law_latest_observation_counts(
    a: AppView,
    first: (u64, Seq<MemoryView>),
    second: (u64, Seq<MemoryView>),
)
    requires
        a.observe_pending,
    ensures
        ({
            let b = observe_heard(a, NewsView::Reply(Ok(first)));
            let c = observe_heard(
                AppView { observe_pending: true, ..b },
                NewsView::Reply(Ok(second)),
            );
            c == observe_heard(a, NewsView::Reply(Ok(second)))
        }),
{
}

/// A poll that fails is told of with its error, word for word, and leaves the
/// readings as they were; so does one that is lost, without a word. Either can
/// be asked for again.
pub proof fn law_failed_poll_keeps_the_readings(a: AppView, e: Seq<char>)
    requires
        a.status_pending,
        a.observe_pending,
    ensures
        ({
            let s = status_heard(a, NewsView::Reply(Err(e)));
            &&& one_more(s, a, Role::Error) && s.messages.last().content == e
            &&& s == (AppView { messages: s.messages, status_pending: false, ..a })
        }),
        ({
            let o = observe_heard(a, NewsView::Reply(Err(e)));
            &&& one_more(o, a, Role::Error) && o.messages.last().content == e
            &&& o == (AppView { messages: o.messages, observe_pending: false, ..a })
        }),
        status_heard(a, NewsView::Lost) == (AppView { status_pending: false, ..a }),
        observe_heard(a, NewsView::Lost) == (AppView { observe_pending: false, ..a }),
        status_heard(a, NewsView::Nothing) == a,
        observe_heard(a, NewsView::Nothing) == a,
{
    assert(status_heard(a, NewsView::Reply(Err(e))).messages.drop_last() =~= a.messages);
    assert(observe_heard(a, NewsView::Reply(Err(e))).messages.drop_last() =~= a.messages);
}

/// What nobody waits for changes nothing.
pub proof fn law_unasked_news_is_ignored(
    a: AppView,
    status: NewsView<StatusView>,
    observed: NewsView<(u64, Seq<MemoryView>)>,
)
    ensures
        !a.status_pending ==> status_heard(a, status) == a,
        !a.observe_pending ==> observe_heard(a, observed) == a,
{
}

/// The two questions that are put to the binary for fresh readings.
pub open spec fn both_questions() -> Seq<EffectView> {
    seq![
        EffectView { task: Task::Status, args: seq!["status"@, "--envelope"@] },
        EffectView { task: Task::Observe, args: seq!["observe"@, "--json"@] },
    ]
}

/// Fresh readings are asked for by two questions, unless they are awaited; the
/// readings that are there stay until then.
pub proof fn law_readings_are_asked_for(a: AppView, now: u64)
    ensures
        ({
            let s = refreshed(a, now);
            &&& !a.status_pending && !a.observe_pending ==> s.work == both_questions()
            &&& a.status_pending && !a.observe_pending ==> s.work == seq![both_questions()[1]]
            &&& !a.status_pending && a.observe_pending ==> s.work == seq![both_questions()[0]]
            &&& a.status_pending && a.observe_pending ==> s.work.len() == 0
            &&& s.app == (AppView {
                status_pending: true,
                observe_pending: true,
                last_status_poll: if a.status_pending {
                    a.last_status_poll
                } else {
                    now
                },
                ..a
            })
        }),
{
    let s = refreshed(a, now);
    if !a.status_pending && !a.observe_pending {
        assert(s.work =~= both_questions());
    } else if !a.observe_pending {
        assert(s.work =~= seq![both_questions()[1]]);
    } else if !a.status_pending {
        assert(s.work =~= seq![both_questions()[0]]);
    } else {
        assert(s.work =~= seq![]);
    }
}

/// On the status tab readings are asked for again once more than five seconds
/// have passed since they were asked for last, and not before; on any other
/// tab the clock asks for nothing.
pub proof fn law_status_tab_polls_every_five_seconds(a: AppView, now: u64)
    ensures
        a.active_tab == 1 && now > a.last_status_poll + 5_000_000_000 ==> ticked(a, now).work
            == refreshed(a, now).work && ticked(a, now).app == refreshed(a, now).app,
        a.active_tab == 1 && now > a.last_status_poll + 5_000_000_000 && !a.status_pending
            && !a.observe_pending ==> ticked(a, now).work == both_questions() && ticked(
            a,
            now,
        ).app.last_status_poll == now,
        now <= a.last_status_poll + 5_000_000_000 ==> ticked(a, now).work.len() == 0 && ticked(
            a,
            now,
        ).app == a,
        a.active_tab != 1 ==> ticked(a, now).work.len() == 0 && ticked(a, now).app == a,
{
    law_readings_are_asked_for(a, now);
}

/// Entering the status tab asks for fresh readings, entering a tab that lives
/// off the bus for its stream, entering another for nothing.
pub proof fn law_tabs_ask_for_what_they_show(a: AppView, now: u64)
    ensures
        ({
            let s = tab_entered(a, now);
            &&& a.active_tab == 1 && !a.status_pending && !a.observe_pending ==> s.work
                == both_questions()
            &&& a.active_tab == 1 ==> s == refreshed(a, now)
            &&& a.active_tab == 2 || a.active_tab == 3 || a.active_tab == 4 ==> {
                &&& s.app == (AppView { live: bus_wanted(a.live), ..a })
                &&& a.live.child ==> s.work.len() == 0
                &&& !a.live.child ==> s.work == seq![
                    EffectView { task: Task::Bus, args: seq!["swarm"@, "tail"@] },
                ]
            }
            &&& a.active_tab == 0 || a.active_tab == 5 ==> s.app == a && s.work.len() == 0
        }),
{
    law_readings_are_asked_for(a, now);
}

// ---------------------------------------------------------------------------
// The bus
// ---------------------------------------------------------------------------

/// A stream that is asked for connects, with all its channels open and what
/// was heard before still there; one that runs is left alone.
pub proof fn law_stream_is_started(v: LiveView)
    ensures
        v.child ==> bus_wanted(v) == v && bus_work(v).len() == 0,
        !v.child ==> bus_wanted(v) == (LiveView {
            status: BusStatus::Connecting,
            lines_open: true,
            agents_open: true,
            dreams_open: true,
            ..v
        }),
        !v.child ==> bus_work(v) == seq![
            EffectView { task: Task::Bus, args: seq!["swarm"@, "tail"@] },
        ],
{
}

/// A stream that starts runs; one that cannot be read or run has failed, and
/// of the latter a row tells why.
pub proof fn law_stream_start_is_told(v: LiveView, e: String, now_ms: i64)
    ensures
        bus_started(v, BusStart::Running, now_ms) == (LiveView { child: true, ..v }),
        bus_started(v, BusStart::Unreadable, now_ms) == (LiveView {
            status: BusStatus::Failed,
            ..v
        }),
        ({
            let w = bus_started(v, BusStart::NotRun(e), now_ms);
            &&& w.status == BusStatus::Failed && w.child == v.child
            &&& w.lines.len() == v.lines.len() + 1 && w.lines.drop_last() == v.lines
            &&& w.lines.last().ts_ms == now_ms && w.lines.last().subject == "tui.error"@
            &&& has_part(w.lines.last().summary, e@)
            &&& w.agents == v.agents && w.dreams == v.dreams
        }),
{
    let w = bus_started(v, BusStart::NotRun(e), now_ms);
    assert(w.lines.drop_last() =~= v.lines);
    let head = "could not spawn 'kannaka swarm tail': "@;
    law_part_of_a_sum(head, e@, seq![]);
    assert(head + e@ + seq![] =~= head + e@);
}

/// Rows that come over an open channel stand behind the rows before, as they
/// came, and five hundred are kept: of more, the oldest go. Agents and dreams
/// are not touched, and a closed channel brings nothing.
pub proof fn law_rows_stand_in_order(v: LiveView, items: Seq<BusLineView>, closed: bool)
    ensures
        ({
            let w = rows_polled(v, items, closed);
            let all = v.lines + items;
            &&& !v.lines_open ==> w == v
            &&& v.lines_open ==> {
                &&& items.len() == 0 ==> w.lines == v.lines
                &&& items.len() > 0 && all.len() <= 500 ==> w.lines == all
                &&& items.len() > 0 && all.len() > 500 ==> w.lines.len() == 500 && w.lines
                    == all.subrange(all.len() - 500, all.len() as int)
                &&& w.lines_open == !closed
            }
            &&& w.agents == v.agents && w.dreams == v.dreams && w.child == v.child
            &&& w.agents_open == v.agents_open && w.dreams_open == v.dreams_open
        }),
{
}

/// Frames are needed to say that a stream streams, and a stream that has
/// failed does not come back by itself.
pub proof fn law_stream_status(v: LiveView, items: Seq<BusLineView>)
    requires
        v.lines_open,
    ensures
        items.len() == 0 ==> rows_polled(v, items, false).status == v.status,
        v.status != BusStatus::Connecting ==> rows_polled(v, items, false).status == v.status,
        items.len() > 0 && v.status == BusStatus::Connecting ==> rows_polled(
            v,
            items,
            false,
        ).status == BusStatus::Streaming,
        rows_polled(v, items, true).status == BusStatus::Failed,
{
}

/// After reports have come, each agent that reported is known by its last
/// report, each other by what it was known by, and nobody else is known.
pub proof fn law_agents_are_known_by_their_last_report(
    v: LiveView,
    reports: Seq<AgentView>,
    closed: bool,
    id: Seq<char>,
)
    requires
        v.agents_open,
    ensures
        ({
            let w = agents_polled(v, reports, closed);
            &&& forall|i: int|
                #![trigger reports[i]]
                0 <= i < reports.len() && reports[i].agent_id == id && (forall|j: int|
                    i < j < reports.len() ==> (#[trigger] reports[j]).agent_id != id)
                    ==> w.agents.contains_key(id) && w.agents[id] == reports[i]
            &&& (forall|i: int| 0 <= i < reports.len() ==> (#[trigger] reports[i]).agent_id != id)
                ==> w.agents.contains_key(id) == v.agents.contains_key(id) && (v.agents.contains_key(
                id,
            ) ==> w.agents[id] == v.agents[id])
            &&& w.lines == v.lines && w.dreams == v.dreams && w.status == v.status
            &&& w.agents_open == !closed && w.lines_open == v.lines_open && w.dreams_open
                == v.dreams_open
        }),
{
    let w = agents_polled(v, reports, closed);
    assert forall|i: int|
        #![trigger reports[i]]
        0 <= i < reports.len() && reports[i].agent_id == id && (forall|j: int|
            i < j < reports.len() ==> (#[trigger] reports[j]).agent_id != id) implies
        w.agents.contains_key(id) && w.agents[id] == reports[i] by {
        law_last_report_counts(v.agents, reports, i);
    }
    if forall|i: int| 0 <= i < reports.len() ==> (#[trigger] reports[i]).agent_id != id {
        law_silent_agents_stay(v.agents, reports, id);
    }
}

/// A closed channel brings neither agents nor dreams.
pub proof fn law_closed_channels_bring_nothing(
    v: LiveView,
    reports: Seq<AgentView>,
    dreams: Seq<DreamView>,
    closed: bool,
)
    ensures
        !v.agents_open ==> agents_polled(v, reports, closed) == v,
        !v.dreams_open ==> dreams_polled(v, dreams, closed) == v,
{
}

/// Dream reports that come over an open channel stand before the reports
/// before, the newest first, and thirty are kept: of more, the oldest go.
pub proof fn law_dreams_stand_newest_first(v: LiveView, items: Seq<DreamView>, closed: bool)
    requires
        v.dreams_open,
        v.dreams.len() <= 30,
    ensures
        ({
            let w = dreams_polled(v, items, closed);
            let n = items.len();
            &&& w.dreams.len() == if n + v.dreams.len() <= 30 {
                n + v.dreams.len()
            } else {
                30
            }
            &&& forall|i: int|
                0 <= i < w.dreams.len() ==> #[trigger] w.dreams[i] == if i < n {
                    items[n - 1 - i]
                } else {
                    v.dreams[i - n]
                }
            &&& w == (LiveView { dreams: w.dreams, dreams_open: !closed, ..v })
        }),
{
}

/// Names are in order character by character: the first that differs decides,
/// and a name comes before any that goes on behind it.
pub proof fn law_names_go_by_their_characters(
    common: Seq<char>,
    x: char,
    s: Seq<char>,
    y: char,
    t: Seq<char>,
)
    ensures
        x != y ==> (precedes(common + (seq![x] + s), common + (seq![y] + t)) <==> (x as int) < (
        y as int)),
        precedes(common, common + (seq![y] + t)),
        !precedes(common + (seq![y] + t), common),
        !precedes(common, common),
    decreases common.len(),
{
    let a = common + (seq![x] + s);
    let b = common + (seq![y] + t);
    if common.len() == 0 {
        assert(a[0] == x);
        assert(b[0] == y);
    } else {
        let rest = common.subrange(1, common.len() as int);
        law_names_go_by_their_characters(rest, x, s, y, t);
        assert(a.subrange(1, a.len() as int) =~= rest + (seq![x] + s));
        assert(b.subrange(1, b.len() as int) =~= rest + (seq![y] + t));
        assert(a[0] == common[0]);
        assert(b[0] == common[0]);
    }
}

// ---------------------------------------------------------------------------
// The local dream
// ---------------------------------------------------------------------------

/// A dream of which nothing is heard goes on; one that is lost is awaited no
/// more; news of a dream that nobody waits for change nothing.
pub proof fn law_dream_goes_on(d: DreamerView, news: DreamNewsView, now: u64)
    ensures
        dream_heard(d, DreamNewsView::Nothing, now) == d,
        dream_heard(d, DreamNewsView::Lost, now).run == d.run,
        !dream_heard(d, DreamNewsView::Lost, now).busy,
        !d.busy ==> dream_heard(d, news, now) == d,
{
}

/// A dream that was awaited and succeeds asks for fresh readings; nothing else
/// that comes over the bus does.
pub proof fn law_dream_end_asks_for_readings(a: AppView, inbox: BusInbox, now: u64)
    ensures
        ({
            let s = bus_polled(a, inbox, now);
            let done = a.dreamer.busy && inbox.dream@ is Reply && inbox.dream@->Reply_0 is Ok;
            &&& done && !a.status_pending && !a.observe_pending ==> s.work == both_questions()
            &&& done ==> s.work == refreshed(a, now).work && s.app.status_pending
                && s.app.observe_pending
            &&& !done ==> s.work.len() == 0 && s.app.status_pending == a.status_pending
                && s.app.observe_pending == a.observe_pending
            &&& s.app.live == live_polled(a.live, inbox)
            &&& s.app.dreamer == dream_heard(a.dreamer, inbox.dream@, now)
            &&& s.app.messages == a.messages && s.app.chat == a.chat && s.app.memories == a.memories
        }),
{
    law_readings_are_asked_for(
        AppView {
            live: live_polled(a.live, inbox),
            dreamer: dream_heard(a.dreamer, inbox.dream@, now),
            ..a
        },
        now,
    );
}

// ---------------------------------------------------------------------------
// The conversation
// ---------------------------------------------------------------------------

/// Events count one after the other: in two polls they do what they do in one.
pub proof fn law_events_count_in_order(
    c: ChatView,
    first: Seq<ChatEventView>,
    more: Seq<ChatEventView>,
    lost: bool,
)
    requires
        forall|i: int| 0 <= i < first.len() ==> !((#[trigger] first[i]) is Closed),
    ensures
        after_events(c, first + more, lost) == after_events(
            after_events(c, first, false),
            more,
            lost,
        ),
        events_work(c, first + more) == events_work(c, first) + events_work(
            after_events(c, first, false),
            more,
        ),
    decreases first.len(),
{
    if first.len() == 0 {
        assert(first + more =~= more);
        assert(events_work(c, first) + events_work(c, more) =~= events_work(c, more));
    } else {
        let rest = first.subrange(1, first.len() as int);
        let all = first + more;
        let d = after_event(c, first[0]);
        assert(all[0] == first[0]);
        assert(all.subrange(1, all.len() as int) =~= rest + more);
        assert(forall|i: int| 0 <= i < rest.len() ==> rest[i] == first[i + 1]);
        law_events_count_in_order(d, rest, more, lost);
        assert(events_work(c, all) =~= events_work(c, first) + events_work(
            after_events(c, first, false),
            more,
        ));
    }
}

/// A single event does what it does in a series of one.
pub proof fn law_one_event_is_a_series(c: ChatView, e: ChatEventView)
    ensures
        after_events(c, seq![e], false) == after_event(c, e),
        events_work(c, seq![e]) == if e is Closed {
            seq![]
        } else {
            event_work(c, e)
        },
        events_work(c, seq![]).len() == 0,
{
    reveal_with_fuel(after_events, 2);
    reveal_with_fuel(events_work, 2);
    assert(seq![e][0] == e);
    assert(seq![e].subrange(1, 1) =~= seq![]);
    assert(events_work(c, seq![e]) =~= if e is Closed {
        seq![]
    } else {
        event_work(c, e)
    });
}

/// Nothing counts behind the end of the chat child.
pub proof fn law_nothing_counts_behind_the_end(
    c: ChatView,
    reason: Seq<char>,
    more: Seq<ChatEventView>,
    lost: bool,
)
    ensures
        after_events(c, seq![ChatEventView::Closed(reason)] + more, lost) == after_event(
            c,
            ChatEventView::Closed(reason),
        ),
        events_work(c, seq![ChatEventView::Closed(reason)] + more).len() == 0,
{
    let all = seq![ChatEventView::Closed(reason)] + more;
    assert(all[0] == ChatEventView::Closed(reason));
}

/// The end of the chat child is told of with its reason; nothing is awaited
/// then, and there is no child. A stream that is lost ends it too.
pub proof fn law_end_of_the_child_is_told(c: ChatView, reason: Seq<char>)
    ensures
        ({
            let d = after_event(c, ChatEventView::Closed(reason));
            &&& d.child is None && d.pending == Pending::Idle
            &&& d.lines.len() == c.lines.len() + 1 && d.lines.drop_last() == c.lines
            &&& d.lines.last().who == ChatWho::System
            &&& has_part(d.lines.last().text, reason)
            &&& d.tick == c.tick && d.waiting == c.waiting && d.plugin == c.plugin
        }),
        ({
            let d = after_events(c, seq![], true);
            &&& d.child is None && d.pending == Pending::Idle
            &&& d.lines.len() == c.lines.len() + 1 && d.lines.drop_last() == c.lines
        }),
        after_events(c, seq![], false) == c,
{
    assert forall|l: ChatLineView| #[trigger] c.lines.push(l).drop_last() == c.lines by {
        assert(c.lines.push(l).drop_last() =~= c.lines);
    }
    law_part_of_a_sum("[chat child closed \u{2014} next turn will respawn: "@, reason, "]"@);
}

/// The reason for the end of the chat child holds the error, where there is
/// one.
pub proof fn law_end_reason_holds_the_error(e: String)
    ensures
        has_part(end_reason(ChildEnd::NotStarted(e)), e@),
        end_reason(ChildEnd::NoPipe) != end_reason(ChildEnd::Silent),
{
    law_part_of_a_sum("spawn failed: "@, e@, seq![]);
    assert("spawn failed: "@ + e@ + seq![] =~= "spawn failed: "@ + e@);
    reveal_strlit("no stdin pipe");
    reveal_strlit("child stdout EOF");
    assert("no stdin pipe"@.len() != "child stdout EOF"@.len());
}

/// A child that can be written to is marked so and gets the message that
/// waited, and one that is ready is marked so; neither says anything.
pub proof fn law_child_comes_up(c: ChatView, h: ChatChild)
    requires
        c.child == Some(h),
    ensures
        ({
            let d = after_event(c, ChatEventView::Attached);
            &&& d == (ChatView {
                child: Some(ChatChild { attached: true, ..h }),
                waiting: None,
                ..c
            })
            &&& c.waiting matches Some(m) ==> event_work(c, ChatEventView::Attached) == seq![
                EffectView { task: Task::Send, args: seq![m] },
            ]
            &&& c.waiting is None ==> event_work(c, ChatEventView::Attached).len() == 0
        }),
        after_event(c, ChatEventView::Ready) == (ChatView {
            child: Some(ChatChild { ready: true, ..h }),
            ..c
        }),
        event_work(c, ChatEventView::Ready).len() == 0,
{
}

/// A response calls for no work. A chunk leaves the turn open and adds its
/// text to what the agent is saying; any other response ends the turn; one
/// that is neither chunk nor chat is shown as a message of the system.
pub proof fn law_responses(c: ChatView, r: ChatReplyView)
    ensures
        ({
            let d = after_event(c, ChatEventView::Response(r));
            let n = c.lines.len();
            &&& event_work(c, ChatEventView::Response(r)).len() == 0
            &&& d == (ChatView { lines: d.lines, pending: d.pending, ..c })
            &&& r.kind == "chunk"@ ==> {
                &&& d.pending == c.pending
                &&& agent_spoke_last(c) ==> d.lines.len() == n && d.lines.drop_last()
                    == c.lines.drop_last() && d.lines.last().text == c.lines.last().text + r.text
                &&& !agent_spoke_last(c) ==> d.lines.len() == n + 1 && d.lines.drop_last()
                    == c.lines && d.lines.last().text == r.text
                &&& d.lines.last().who == ChatWho::Kannaka
            }
            &&& r.kind != "chunk"@ ==> d.pending == Pending::Idle
            &&& r.kind == "chat"@ && agent_spoke_last(c) ==> d.lines == c.lines
            &&& r.kind == "chat"@ && !agent_spoke_last(c) ==> d.lines == c.lines.push(
                ChatLineView { who: ChatWho::Kannaka, text: r.text },
            )
            &&& r.kind != "chunk"@ && r.kind != "chat"@ ==> d.lines == c.lines.push(
                ChatLineView { who: ChatWho::System, text: r.text },
            )
        }),
{
    reveal_strlit("chunk");
    reveal_strlit("chat");
    assert("chunk"@.len() != "chat"@.len());
    let d = after_event(c, ChatEventView::Response(r));
    if r.kind == "chunk"@ {
        if agent_spoke_last(c) {
            assert(d.lines.drop_last() =~= c.lines.drop_last());
        } else {
            assert(d.lines.drop_last() =~= c.lines);
        }
    }
}

/// The answer to a one-shot question is shown as it is, an error with its
/// reason, and ends the waiting; where no question waits, nothing happens.
pub proof fn law_one_shot_answer_is_shown(c: ChatView, text: Seq<char>)
    ensures
        ({
            let d = after_answer(c, Some(Ok(text)));
            let e = after_answer(c, Some(Err(text)));
            &&& c.pending == Pending::Ask ==> {
                &&& d == (ChatView { lines: d.lines, pending: Pending::Idle, ..c })
                &&& d.lines == c.lines.push(ChatLineView { who: ChatWho::Kannaka, text })
                &&& e == (ChatView { lines: e.lines, pending: Pending::Idle, ..c })
                &&& e.lines.len() == c.lines.len() + 1 && e.lines.drop_last() == c.lines
                &&& e.lines.last().who == ChatWho::System && has_part(e.lines.last().text, text)
            }
            &&& c.pending != Pending::Ask ==> d == c && e == c
        }),
        after_answer(c, None) == c,
{
    let e = after_answer(c, Some(Err(text)));
    if c.pending == Pending::Ask {
        assert(e.lines.drop_last() =~= c.lines);
    }
    law_part_of_a_sum("error: "@, text, seq![]);
    assert("error: "@ + text + seq![] =~= "error: "@ + text);
}

/// A poll hears the events of the child, where there is one, and then the
/// answer to a one-shot question.
pub proof fn law_poll_hears_both(
    c: ChatView,
    events: Seq<ChatEventView>,
    lost: bool,
    answer: Option<Result<Seq<char>, Seq<char>>>,
)
    ensures
        c.child is None ==> chat_polled(c, events, lost, answer) == after_answer(c, answer),
        c.child is Some ==> chat_polled(c, events, lost, None) == after_events(c, events, lost),
        c.child is Some ==> chat_polled(c, events, lost, answer) == after_answer(
            chat_polled(c, events, lost, None),
            answer,
        ),
{
}

// ---------------------------------------------------------------------------
// Plugins
// ---------------------------------------------------------------------------

/// The lines of a plugin are shown one by one in their order: each that is not
/// blank as a line of the system, as it is; the blank ones not at all.
pub proof fn law_plugin_lines_are_shown(
    c: ChatView,
    first: Seq<Seq<char>>,
    more: Seq<Seq<char>>,
    line: Seq<char>,
)
    ensures
        plugin_said(c, first + more) == plugin_said(plugin_said(c, first), more),
        plugin_said(c, seq![]) == c,
        (forall|i: int| 0 <= i < line.len() ==> is_white(#[trigger] line[i])) ==> plugin_said(
            c,
            seq![line],
        ) == c,
        (exists|i: int| 0 <= i < line.len() && !is_white(#[trigger] line[i])) ==> plugin_said(
            c,
            seq![line],
        ) == (ChatView {
            lines: c.lines.push(ChatLineView { who: ChatWho::System, text: line }),
            ..c
        }),
    decreases more.len(),
{
    if more.len() == 0 {
        assert(first + more =~= first);
    } else {
        law_plugin_lines_are_shown(c, first, more.drop_last(), line);
        assert((first + more).drop_last() =~= first + more.drop_last());
    }
    reveal_with_fuel(plugin_said, 2);
    assert(seq![line].drop_last() =~= seq![]);
    let none: Seq<char> = seq![];
    if forall|i: int| 0 <= i < line.len() ==> is_white(#[trigger] line[i]) {
        assert forall|i: int| 0 <= i < line.len() implies Edge::White.strips(#[trigger] line[i]) by {
        }
        law_trimming_leaves_the_core(Edge::White, line, none, none);
        assert(line + none + none =~= line);
    }
    if exists|i: int| 0 <= i < line.len() && !is_white(#[trigger] line[i]) {
        let i = choose|i: int| 0 <= i < line.len() && !is_white(#[trigger] line[i]);
        crate::text::law_trimmed_part(Edge::White, line);
        let t = crate::text::trimmed(Edge::White, line);
        if t.len() == 0 {
            let (x, y) = choose|x: int, y: int|
                #![trigger line.subrange(x, y)]
                0 <= x <= y <= line.len() && t == line.subrange(x, y) && (forall|k: int|
                    0 <= k < x || y <= k < line.len() ==> Edge::White.strips(#[trigger] line[k]));
            assert(Edge::White.strips(line[i]));
        }
    }
}

/// A plugin that runs keeps the turn open until it is through; lines of a
/// plugin that does not run are not heard.
pub proof fn law_plugin_keeps_the_turn(c: ChatView, lines: Seq<Seq<char>>, ended: bool)
    ensures
        !c.plugin ==> plugin_polled(c, lines, ended) == c,
        c.plugin ==> plugin_polled(c, lines, false) == plugin_said(c, lines),
        c.plugin ==> plugin_polled(c, lines, true).lines == plugin_said(c, lines).lines,
        plugin_said(c, lines).pending == c.pending,
        plugin_said(c, lines).plugin == c.plugin,
        plugin_said(c, lines).child == c.child,
    decreases lines.len(),
{
    if lines.len() > 0 {
        law_plugin_keeps_the_turn(c, lines.drop_last(), ended);
    }
}

/// A plugin that is found takes the turn, without a word; of one that is not
/// found a line tells by its name, and no answer is awaited for it.
pub proof fn law_plugin_is_found_or_told(c: ChatView, plugin: Plugin)
    ensures
        plugin_probed(c, plugin, true) == (ChatView { pending: Pending::Turn, plugin: true, ..c }),
        ({
            let d = plugin_probed(c, plugin, false);
            &&& d == (ChatView { lines: d.lines, ..c })
            &&& d.lines.len() == c.lines.len() + 1 && d.lines.drop_last() == c.lines
            &&& d.lines.last().who == ChatWho::System
            &&& has_part(d.lines.last().text, plugin.program())
        }),
        Plugin::Code.program() == "kannaka-code"@,
        Plugin::Topus.program() == "kannaktopus"@,
{
    let d = plugin_probed(c, plugin, false);
    assert(d.lines.drop_last() =~= c.lines);
    law_part_of_a_sum(
        "[plugin '"@,
        plugin.program(),
        "' not found on PATH \u{2014} install it and try again. For kannaka-code: cargo install --git https://github.com/NickFlach/kannaka-code]"@,
    );
}

/// The spinner moves while an answer is awaited, one step at a time, and only
/// then; nothing else moves with it.
pub proof fn law_spinner_moves_while_waiting(c: ChatView)
    ensures
        c.pending == Pending::Idle ==> spun(c) == c,
        c.pending != Pending::Idle && c.tick < usize::MAX ==> spun(c) == (ChatView {
            tick: (c.tick + 1) as usize,
            ..c
        }),
        c.pending != Pending::Idle && c.tick == usize::MAX ==> spun(c) == (ChatView {
            tick: 0,
            ..c
        }),
{
}

// ---------------------------------------------------------------------------
// A round
// ---------------------------------------------------------------------------

/// A round hears all that came in: the conversation, the status, the memories,
/// the bus, the local dream and the plugin each get what came for them.
pub proof fn law_round_hears_everything(a: AppView, inbox: Inbox, now: u64)
    ensures
        ({
            let b = round_done(a, inbox, now).app;
            &&& b.chat == plugin_polled(
                spun(conversed(a, inbox.chat).app.chat),
                texts(inbox.plugin.items@),
                inbox.plugin.closed,
            )
            &&& b.live == live_polled(a.live, inbox.bus)
            &&& b.dreamer == dream_heard(a.dreamer, inbox.bus.dream@, now)
            &&& b.messages == observe_heard(
                status_heard(a, status_news(inbox.status)),
                observe_news(inbox.observed),
            ).messages
            &&& a.observe_pending ==> (inbox.observed matches News::Reply(Ok((links, memories)))
                ==> b.memories == memories_view(memories@))
            &&& !(inbox.observed is Reply) ==> b.memories == a.memories && b.status
                == status_heard(a, status_news(inbox.status)).status
            &&& a.status_pending ==> (inbox.status matches News::Reply(Ok(s)) ==> b.status is Some
                && b.status->0.phi == s.phi && b.status->0.memories == s.memories && b.status->0.level
                == s.level@)
        }),
        a.status_pending && a.observe_pending ==> (inbox.status matches News::Reply(Ok(s)) ==> (
        inbox.observed matches News::Reply(Ok((links, memories))) ==> round_done(
            a,
            inbox,
            now,
        ).app.status == Some(StatusView { links, ..s@ }))),
{
}

/// A round does the work that the conversation calls for, and asks for fresh
/// readings behind it: where the local dream is done, and on the status tab
/// where it is time.
pub proof fn law_round_does_all_work(a: AppView, inbox: Inbox, now: u64)
    ensures
        ({
            let talk = conversed(a, inbox.chat).work;
            let all = round_done(a, inbox, now).work;
            let done = a.dreamer.busy && inbox.bus.dream@ is Reply && inbox.bus.dream@->Reply_0 is Ok;
            let due = a.active_tab == 1 && now > a.last_status_poll + 5_000_000_000;
            &&& talk.len() <= all.len()
            &&& all.subrange(0, talk.len() as int) == talk
            &&& !a.status_pending && !a.observe_pending && (done || due) ==> all == talk
                + both_questions()
            &&& !done && !due ==> all == talk
        }),
{
    let talk = conversed(a, inbox.chat).work;
    let all = round_done(a, inbox, now).work;
    let c = conversed(a, inbox.chat);
    let d = AppView { chat: spun(c.app.chat), ..c.app };
    let e = observe_heard(
        status_heard(d, status_news(inbox.status)),
        observe_news(inbox.observed),
    );
    let f = bus_polled(e, inbox.bus, now);
    let g = AppView {
        chat: plugin_polled(f.app.chat, texts(inbox.plugin.items@), inbox.plugin.closed),
        ..f.app
    };
    law_dream_end_asks_for_readings(e, inbox.bus, now);
    law_readings_are_asked_for(g, now);
    law_readings_are_asked_for(e, now);
    assert(all.subrange(0, talk.len() as int) =~= talk);
    let done = a.dreamer.busy && inbox.bus.dream@ is Reply && inbox.bus.dream@->Reply_0 is Ok;
    let due = a.active_tab == 1 && now > a.last_status_poll + 5_000_000_000;
    if !a.status_pending && !a.observe_pending && (done || due) {
        assert(all =~= talk + both_questions());
    }
    if !done && !due {
        assert(all =~= talk);
    }
}

/// What came of the conversation changes the conversation alone; without a
/// chat child its events call for no work.
pub proof fn law_conversation_is_heard(a: AppView, inbox: ChatInbox)
    ensures
        ({
            let s = conversed(a, inbox);
            let events = crate::chat::chat_events(inbox.events@);
            &&& s.app == (AppView { chat: s.app.chat, ..a })
            &&& inbox.answer is None && a.chat.child is Some ==> s.app.chat == after_events(
                a.chat,
                events,
                inbox.lost,
            ) && s.work == events_work(a.chat, events)
            &&& a.chat.child is None ==> s.work.len() == 0
            &&& a.chat.child is None && inbox.answer is None ==> s.app == a
            &&& events.len() == inbox.events@.len()
            &&& forall|i: int| 0 <= i < events.len() ==> #[trigger] events[i] == inbox.events@[i]@
        }),
{
}

/// What came over the bus goes to its own place: the rows to the rows, the
/// agent reports to the agents, the dream reports to the dreams, all of them
/// and in their order.
pub proof fn law_bus_news_go_to_their_places(v: LiveView, inbox: BusInbox)
    ensures
        ({
            let w = live_polled(v, inbox);
            let rows = rows_polled(v, bus_lines(inbox.rows.items@), inbox.rows.closed);
            let agents = agents_polled(v, agent_reports(inbox.agents.items@), inbox.agents.closed);
            let dreams = dreams_polled(v, dream_reports(inbox.dreams.items@), inbox.dreams.closed);
            &&& w.lines == rows.lines && w.status == rows.status && w.lines_open == rows.lines_open
            &&& w.agents == agents.agents && w.agents_open == agents.agents_open
            &&& w.dreams == dreams.dreams && w.dreams_open == dreams.dreams_open
            &&& w.child == v.child
        }),
{
}

} // verus!

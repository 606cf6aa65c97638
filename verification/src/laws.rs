//! What holds of the dashboard as a whole.

use crate::bus::{AgentView, BusLineView, DreamView};
use crate::chat::{
    after_event, after_events, agent_spoke_last, child_closed, child_work, event_work, events_work,
    plugin_polled, said, turn_work, ChatEventView, ChatLineView, ChatView, ChatWho, Pending,
};
use crate::command::{command_of, without_slash, CommandView};
use crate::dream::{dream_heard, dream_wanted, DreamNewsView, DreamRunView, DreamerView};
use crate::effect::{work, Task};
use crate::input::{older, recorded};
use crate::live::{
    agents_heard, backlog, bus_started, bus_wanted, bus_work, dreams_polled, rolling, rows_polled,
    BusStart, BusStatus, LiveView, BUS_BACKLOG_CAP, DREAM_HISTORY_CAP,
};
use crate::model::{
    commanded, dreaming, edited, is_interrupt, is_quit_key, key_pressed, next_tab, observe_wanted,
    previous_tab, refreshed, status_wanted, still, submitted, takes_key, talked, AppView, Key,
    KeyCode, MessageView, Modifiers, Role, CHAT_TAB, TAB_COUNT,
};
use crate::reply::ChatReplyView;
use crate::round::{round_done, Inbox};
use crate::runs::{passed_through, PassEndView};
use crate::text::{after, has_prefix, trimmed, Edge};
use vstd::prelude::*;

pub mod documents;
pub mod editing;
pub mod models;
pub mod polling;
pub mod running;
pub mod showing;

verus! {

// ---------------------------------------------------------------------------
// Keys
// ---------------------------------------------------------------------------

/// A key without modifiers.
pub open spec fn bare_key(code: KeyCode) -> Key {
    Key { modifiers: Modifiers::Bare, code }
}

/// The tab key with shift, as terminals report it.
pub open spec fn back_tab() -> Key {
    Key { modifiers: Modifiers::Shift, code: KeyCode::BackTab }
}

proof fn lemma_tab_keys(a: AppView, now: u64)
    requires
        !a.show_help,
    ensures
        key_pressed(a, bare_key(KeyCode::Tab), now).app.active_tab == next_tab(a.active_tab),
        !key_pressed(a, bare_key(KeyCode::Tab), now).app.show_help,
        key_pressed(a, back_tab(), now).app.active_tab == previous_tab(a.active_tab),
        !key_pressed(a, back_tab(), now).app.show_help,
{
}

/// One tab on and one tab back is where one was, and so is the reverse.
pub proof fn law_tab_and_back(a: AppView, now: u64, later: u64)
    requires
        !a.show_help,
        a.active_tab < TAB_COUNT,
    ensures
        ({
            let b = key_pressed(a, bare_key(KeyCode::Tab), now).app;
            key_pressed(b, back_tab(), later).app.active_tab == a.active_tab
        }),
        ({
            let b = key_pressed(a, back_tab(), now).app;
            key_pressed(b, bare_key(KeyCode::Tab), later).app.active_tab == a.active_tab
        }),
{
    lemma_tab_keys(a, now);
    lemma_tab_keys(key_pressed(a, bare_key(KeyCode::Tab), now).app, later);
    lemma_tab_keys(key_pressed(a, back_tab(), now).app, later);
}

/// As many tabs on as there are tabs is where one was.
pub proof fn law_tabs_go_round(tab: usize)
    requires
        tab < TAB_COUNT,
    ensures
        next_tab(next_tab(next_tab(next_tab(next_tab(next_tab(tab)))))) == tab,
{
}

/// Switching tabs touches neither the bar nor the two logs.
pub proof fn law_tab_keeps_text(a: AppView, now: u64)
    requires
        !a.show_help,
    ensures
        ({
            let b = key_pressed(a, bare_key(KeyCode::Tab), now).app;
            b.bar == a.bar && b.messages == a.messages && b.chat == a.chat
        }),
        ({
            let b = key_pressed(a, back_tab(), now).app;
            b.bar == a.bar && b.messages == a.messages && b.chat == a.chat
        }),
{
}

/// Any key closes the help overlay and does nothing else.
pub proof fn law_any_key_closes_help(a: AppView, key: Key, now: u64)
    requires
        a.show_help,
    ensures
        takes_key(a, key),
        key_pressed(a, key, now).app == (AppView { show_help: false, ..a }),
        key_pressed(a, key, now).work.len() == 0,
{
}

/// F1 toggles the help overlay, whatever is held with it, and does nothing
/// else.
pub proof fn law_f1_toggles_help(a: AppView, modifiers: Modifiers, now: u64)
    ensures
        ({
            let s = key_pressed(a, (Key { modifiers, code: KeyCode::F(1) }), now);
            s.app == (AppView { show_help: !a.show_help, ..a }) && s.work.len() == 0
        }),
{
}

/// The letter q and the escape key leave the dashboard if and only if the bar
/// is empty.
pub proof fn law_quit_only_from_empty_bar(a: AppView, key: Key, now: u64)
    requires
        !a.show_help,
        is_quit_key(key),
    ensures
        key_pressed(a, key, now).app.should_quit <==> a.should_quit || a.bar.text.len() == 0,
{
}

/// Control with c leaves the dashboard whatever the bar holds.
pub proof fn law_interrupt_quits(a: AppView, key: Key, now: u64)
    requires
        !a.show_help,
        is_interrupt(key),
    ensures
        takes_key(a, key),
        key_pressed(a, key, now).app == (AppView { should_quit: true, ..a }),
        key_pressed(a, key, now).work.len() == 0,
{
}

/// A page up and a page down is where one was, as long as the page up does
/// not run out of numbers.
pub proof fn law_page_up_and_down(a: AppView)
    requires
        a.scroll_offset + 5 <= usize::MAX,
    ensures
        edited(edited(a, KeyCode::PageUp), KeyCode::PageDown) == a,
{
}

/// Whether a list begins with another.
pub open spec fn extends<T>(longer: Seq<T>, shorter: Seq<T>) -> bool {
    shorter.len() <= longer.len() && longer.subrange(0, shorter.len() as int) == shorter
}

pub(crate) proof fn lemma_commands_only_add(a: AppView, command: CommandView, now: u64)
    ensures
        ({
            let b = commanded(a, command, now).app;
            &&& extends(b.messages, a.messages)
            &&& b.chat == a.chat
            &&& b.bar == a.bar
            &&& b.memories == a.memories && b.status == a.status
            &&& b.agent_name == a.agent_name && b.kannaka_bin == a.kannaka_bin
            &&& a.should_quit ==> b.should_quit
        }),
{
    let m = a.messages;
    assert(m.subrange(0, m.len() as int) =~= m);
    assert forall|x: MessageView| extends(#[trigger] m.push(x), m) by {
        assert(m.push(x).subrange(0, m.len() as int) =~= m);
    }
    assert forall|x: MessageView, y: MessageView| extends(#[trigger] m.push(x).push(y), m) by {
        assert(m.push(x).push(y).subrange(0, m.len() as int) =~= m);
    }
}

proof fn lemma_lines_only_add(a: AppView, now: u64)
    ensures
        ({
            let b = submitted(a, now).app;
            &&& extends(b.messages, a.messages)
            &&& extends(b.chat.lines, a.chat.lines)
            &&& extends(b.bar.history, a.bar.history)
            &&& b.memories == a.memories && b.status == a.status
            &&& b.agent_name == a.agent_name && b.kannaka_bin == a.kannaka_bin
            &&& a.should_quit ==> b.should_quit
        }),
{
    reveal(submitted);
    let line = trimmed(Edge::White, a.bar.text);
    let b = AppView { bar: recorded(a.bar, line), ..a };
    lemma_commands_only_add(b, command_of(without_slash(line)), now);
    assert(a.messages.subrange(0, a.messages.len() as int) =~= a.messages);
    let h = a.bar.history;
    assert(h.subrange(0, h.len() as int) =~= h);
    assert(h.push(line).subrange(0, h.len() as int) =~= h);
    let c = a.chat.lines;
    assert(c.subrange(0, c.len() as int) =~= c);
    assert forall|x: ChatLineView| extends(#[trigger] c.push(x), c) by {
        assert(c.push(x).subrange(0, c.len() as int) =~= c);
    }
}

/// Keys only ever add to the command log, to the conversation and to the
/// history of the bar; they touch no reading, and what asked to leave the
/// dashboard is not taken back.
pub proof fn law_keys_only_add(a: AppView, key: Key, now: u64)
    ensures
        ({
            let b = key_pressed(a, key, now).app;
            &&& extends(b.messages, a.messages)
            &&& extends(b.chat.lines, a.chat.lines)
            &&& extends(b.bar.history, a.bar.history)
            &&& b.memories == a.memories && b.status == a.status
            &&& b.agent_name == a.agent_name && b.kannaka_bin == a.kannaka_bin
            &&& a.should_quit ==> b.should_quit
        }),
{
    lemma_lines_only_add(a, now);
    assert(a.messages.subrange(0, a.messages.len() as int) =~= a.messages);
    assert(a.bar.history.subrange(0, a.bar.history.len() as int) =~= a.bar.history);
    assert(a.chat.lines.subrange(0, a.chat.lines.len() as int) =~= a.chat.lines);
}

/// What comes in from outside touches neither the bar nor the open tab, nor
/// where one has scrolled to, nor the overlay, and never leaves the dashboard.
pub proof fn law_rounds_keep_the_bar(a: AppView, inbox: Inbox, now: u64)
    ensures
        ({
            let b = round_done(a, inbox, now).app;
            &&& b.bar == a.bar && b.active_tab == a.active_tab
            &&& b.scroll_offset == a.scroll_offset && b.show_help == a.show_help
            &&& b.should_quit == a.should_quit
            &&& b.agent_name == a.agent_name && b.kannaka_bin == a.kannaka_bin
        }),
{
}

// ---------------------------------------------------------------------------
// Lines
// ---------------------------------------------------------------------------

/// A line that is not blank enters the history, and its text leaves the bar;
/// the up key brings it back.
pub proof fn law_entered_line_is_recalled(a: AppView, now: u64)
    requires
        trimmed(Edge::White, a.bar.text).len() > 0,
        a.bar.history.len() < usize::MAX,
    ensures
        submitted(a, now).app.bar.text.len() == 0,
        submitted(a, now).app.bar.history == a.bar.history.push(trimmed(Edge::White, a.bar.text)),
        older(submitted(a, now).app.bar).text == trimmed(Edge::White, a.bar.text),
{
    reveal(submitted);
}

/// A blank line changes nothing.
pub proof fn law_blank_line_stays(a: AppView, now: u64)
    requires
        trimmed(Edge::White, a.bar.text).len() == 0,
    ensures
        submitted(a, now) == still(a),
{
    reveal(submitted);
}

/// A slash before a command makes no difference.
pub proof fn law_slash_is_optional(line: Seq<char>)
    requires
        !has_prefix(line, "/"@),
    ensures
        command_of(without_slash("/"@ + line)) == command_of(without_slash(line)),
{
    reveal_strlit("/");
    assert(("/"@ + line).subrange(0, 1) =~= "/"@);
    assert(after("/"@ + line, "/"@) =~= line);
}

/// A line that is no command opens the chat tab; unless an answer is awaited,
/// it becomes the last line of the conversation and an answer is awaited.
pub proof fn law_other_lines_go_to_chat(a: AppView, now: u64)
    requires
        a.active_tab != CHAT_TAB,
        trimmed(Edge::White, a.bar.text).len() > 0,
        command_of(without_slash(trimmed(Edge::White, a.bar.text))) is Chat,
    ensures
        ({
            let b = submitted(a, now).app;
            &&& b.active_tab == CHAT_TAB
            &&& b.messages == a.messages
            &&& a.chat.pending == Pending::Idle ==> {
                &&& b.chat.lines == a.chat.lines.push(
                    ChatLineView { who: ChatWho::User, text: trimmed(Edge::White, a.bar.text) },
                )
                &&& b.chat.pending != Pending::Idle
            }
        }),
{
    reveal(submitted);
}

/// While an answer is awaited, a line entered on the chat tab is dropped: the
/// conversation stays as it is, and nothing is started.
pub proof fn law_no_turn_while_waiting(a: AppView, now: u64)
    requires
        a.active_tab == CHAT_TAB,
        a.chat.pending != Pending::Idle,
    ensures
        submitted(a, now).app.chat == a.chat,
        submitted(a, now).work.len() == 0,
{
    reveal(submitted);
}

/// Entering a line on the chat tab never reaches the command log.
pub proof fn law_chat_lines_are_no_commands(a: AppView, now: u64)
    requires
        a.active_tab == CHAT_TAB,
    ensures
        submitted(a, now).app.messages == a.messages,
        submitted(a, now).app.should_quit == a.should_quit,
        submitted(a, now).app.dreamer == a.dreamer,
{
    reveal(submitted);
}

/// The end of a run with a time limit stands in the command log right behind
/// the label of the run: the notice in between is gone.
pub proof fn law_result_replaces_notice(
    a: AppView,
    label: Seq<char>,
    args: Seq<Seq<char>>,
    timeout_secs: u64,
    end: PassEndView,
    now: u64,
)
    ensures
        ({
            let b = commanded(a, CommandView::Passthrough { label, args, timeout_secs }, now).app;
            let c = passed_through(b, end).app;
            &&& c.messages.len() == a.messages.len() + 2
            &&& c.messages.drop_last() == a.messages.push(
                MessageView { role: Role::User, content: label },
            )
            &&& c.messages.last().role == (if end is Success {
                Role::Result
            } else {
                Role::Error
            })
        }),
{
    let b = commanded(a, CommandView::Passthrough { label, args, timeout_secs }, now).app;
    let c = passed_through(b, end).app;
    assert(c.messages.drop_last() =~= a.messages.push(
        MessageView { role: Role::User, content: label },
    ));
}

// ---------------------------------------------------------------------------
// Background work
// ---------------------------------------------------------------------------

/// A status that is awaited is not asked for again, nor is an observation:
/// asking twice is asking once.
pub proof fn law_polls_do_not_pile_up(a: AppView, now: u64, later: u64)
    ensures
        status_wanted(status_wanted(a, now).app, later) == still(status_wanted(a, now).app),
        observe_wanted(observe_wanted(a).app) == still(observe_wanted(a).app),
        refreshed(refreshed(a, now).app, later).app == refreshed(a, now).app,
        refreshed(refreshed(a, now).app, later).work.len() == 0,
{
}

/// One dream runs at a time: until it ends, asking for another does nothing.
pub proof fn law_one_dream_at_a_time(
    a: AppView,
    first: Seq<char>,
    second: Seq<char>,
    now: u64,
    later: u64,
)
    ensures
        dreaming(dreaming(a, first, now).app, second, later).app == dreaming(a, first, now).app,
        dreaming(dreaming(a, first, now).app, second, later).work.len() == 0,
{
}

/// A dream that was asked for, and answers, is shown with its mode, its
/// duration and its summary; one that fails, with its mode and the reason.
/// Either way another dream can be asked for then.
pub proof fn law_dream_runs_its_course(
    d: DreamerView,
    mode: Seq<char>,
    now: u64,
    later: u64,
    answer: Result<Seq<char>, Seq<char>>,
)
    requires
        !d.busy,
        now <= later,
    ensures
        ({
            let e = dream_heard(dream_wanted(d, mode, now), DreamNewsView::Reply(answer), later);
            &&& !e.busy
            &&& match answer {
                Ok(summary) => e.run == (DreamRunView::Done {
                    mode,
                    took: (later - now) as u64,
                    summary,
                }),
                Err(error) => e.run == (DreamRunView::Failed { mode, error }),
            }
        }),
{
}

/// While a dream is awaited it is shown as running.
pub proof fn law_awaited_dream_is_running(
    d: DreamerView,
    mode: Seq<char>,
    news: DreamNewsView,
    now: u64,
)
    requires
        d.busy ==> d.run is Running,
    ensures
        dream_wanted(d, mode, now).busy,
        dream_wanted(d, mode, now).run is Running,
        dream_heard(d, news, now).busy ==> dream_heard(d, news, now).run is Running,
{
}

/// Once the stream of the bus runs, the bus is not started again.
pub proof fn law_bus_starts_once(v: LiveView, now_ms: i64)
    ensures
        ({
            let w = bus_started(bus_wanted(v), BusStart::Running, now_ms);
            bus_wanted(w) == w && bus_work(w).len() == 0
        }),
{
}

/// Frames on a stream that connects show that it streams; a stream that ends
/// has failed, and frames behind its end do not count.
pub proof fn law_bus_comes_up_and_goes_down(
    v: LiveView,
    items: Seq<BusLineView>,
    more: Seq<BusLineView>,
    closed: bool,
)
    requires
        v.lines_open,
        v.status == BusStatus::Connecting,
        items.len() > 0,
    ensures
        rows_polled(v, items, false).status == BusStatus::Streaming,
        rows_polled(v, items, true).status == BusStatus::Failed,
        rows_polled(rows_polled(v, items, true), more, closed) == rows_polled(v, items, true),
{
}

/// New rows come behind the old ones, and of them all the last are kept, no
/// more than the cap; none is dropped that the cap has room for.
pub proof fn law_backlog_keeps_the_newest<T>(old_items: Seq<T>, new_items: Seq<T>, cap: nat)
    requires
        new_items.len() > 0,
    ensures
        ({
            let all = old_items + new_items;
            let kept = backlog(old_items, new_items, cap);
            &&& kept.len() == if all.len() <= cap {
                all.len()
            } else {
                cap
            }
            &&& kept == all.subrange(all.len() - kept.len(), all.len() as int)
        }),
{
    let all = old_items + new_items;
    assert(all.subrange(0, all.len() as int) =~= all);
}

/// New reports come before the old ones, the newest first, and of them all
/// the first are kept, no more than the cap.
pub proof fn law_history_keeps_the_newest<T>(old_items: Seq<T>, new_items: Seq<T>, cap: nat)
    requires
        new_items.len() > 0,
        cap > 0,
    ensures
        ({
            let all = new_items.reverse() + old_items;
            let kept = rolling(old_items, new_items, cap);
            &&& kept.len() == if all.len() <= cap {
                all.len()
            } else {
                cap
            }
            &&& kept == all.subrange(0, kept.len() as int)
            &&& kept[0] == new_items.last()
        }),
{
    let all = new_items.reverse() + old_items;
    assert(all.subrange(0, all.len() as int) =~= all);
}

/// Polling never takes the two lists over their caps: rows that are polled
/// bring the backlog to its cap at most, and reports keep within theirs.
pub proof fn law_caps_hold(
    v: LiveView,
    rows: Seq<BusLineView>,
    reports: Seq<DreamView>,
    closed: bool,
)
    requires
        v.dreams.len() <= DREAM_HISTORY_CAP,
    ensures
        v.lines.len() <= BUS_BACKLOG_CAP ==> rows_polled(v, rows, closed).lines.len()
            <= BUS_BACKLOG_CAP,
        v.lines_open && rows.len() > 0 ==> rows_polled(v, rows, closed).lines.len()
            <= BUS_BACKLOG_CAP,
        dreams_polled(v, reports, closed).dreams.len() <= DREAM_HISTORY_CAP,
{
}

// ---------------------------------------------------------------------------
// Agents
// ---------------------------------------------------------------------------

/// Of each agent the last report counts.
pub proof fn law_last_report_counts(
    agents: Map<Seq<char>, AgentView>,
    reports: Seq<AgentView>,
    i: int,
)
    requires
        0 <= i < reports.len(),
        forall|j: int|
            i < j < reports.len() ==> (#[trigger] reports[j]).agent_id != reports[i].agent_id,
    ensures
        agents_heard(agents, reports).contains_key(reports[i].agent_id),
        agents_heard(agents, reports)[reports[i].agent_id] == reports[i],
    decreases reports.len(),
{
    if i < reports.len() - 1 {
        let front = reports.drop_last();
        assert(forall|j: int| 0 <= j < front.len() ==> front[j] == reports[j]);
        assert(reports.last().agent_id != reports[i].agent_id);
        law_last_report_counts(agents, front, i);
    }
}

/// An agent that does not report stays as it is.
pub proof fn law_silent_agents_stay(
    agents: Map<Seq<char>, AgentView>,
    reports: Seq<AgentView>,
    id: Seq<char>,
)
    requires
        forall|i: int| 0 <= i < reports.len() ==> (#[trigger] reports[i]).agent_id != id,
    ensures
        agents_heard(agents, reports).contains_key(id) == agents.contains_key(id),
        agents.contains_key(id) ==> agents_heard(agents, reports)[id] == agents[id],
    decreases reports.len(),
{
    if reports.len() > 0 {
        let front = reports.drop_last();
        assert(forall|j: int| 0 <= j < front.len() ==> front[j] == reports[j]);
        assert(reports.last().agent_id != id);
        law_silent_agents_stay(agents, front, id);
    }
}

// ---------------------------------------------------------------------------
// Conversation
// ---------------------------------------------------------------------------

/// The chunks of a streamed answer as events of the chat child.
pub open spec fn chunks(texts: Seq<Seq<char>>) -> Seq<ChatEventView> {
    texts.map_values(
        |t: Seq<char>| ChatEventView::Response(ChatReplyView { kind: "chunk"@, text: t }),
    )
}

/// The end of an answer as an event of the chat child.
pub open spec fn turn_end(text: Seq<char>) -> ChatEventView {
    ChatEventView::Response(ChatReplyView { kind: "chat"@, text })
}

/// Texts one behind the other.
pub open spec fn run_together(texts: Seq<Seq<char>>) -> Seq<char>
    decreases texts.len(),
{
    if texts.len() == 0 {
        seq![]
    } else {
        texts[0] + run_together(texts.subrange(1, texts.len() as int))
    }
}

spec fn continued(c: ChatView, text: Seq<char>) -> ChatView {
    ChatView {
        lines: c.lines.drop_last().push(
            ChatLineView { who: ChatWho::Kannaka, text: c.lines.last().text + text },
        ),
        ..c
    }
}

proof fn lemma_chunks_continue(
    c: ChatView,
    texts: Seq<Seq<char>>,
    rest: Seq<ChatEventView>,
    lost: bool,
)
    requires
        agent_spoke_last(c),
    ensures
        after_events(c, chunks(texts) + rest, lost) == after_events(
            continued(c, run_together(texts)),
            rest,
            lost,
        ),
        events_work(c, chunks(texts) + rest) == events_work(
            continued(c, run_together(texts)),
            rest,
        ),
    decreases texts.len(),
{
    if texts.len() == 0 {
        assert(chunks(texts) + rest =~= rest);
        assert(continued(c, seq![]).lines =~= c.lines);
        assert(continued(c, run_together(texts)) =~= c);
    } else {
        let tail = texts.subrange(1, texts.len() as int);
        let all = chunks(texts) + rest;
        let d = continued(c, texts[0]);
        assert(all[0] == ChatEventView::Response(
            ChatReplyView { kind: "chunk"@, text: texts[0] },
        ));
        assert(all.subrange(1, all.len() as int) =~= chunks(tail) + rest);
        assert(after_event(c, all[0]) == d);
        lemma_chunks_continue(d, tail, rest, lost);
        let begun = c.lines.last().text;
        assert(begun + texts[0] + run_together(tail) =~= begun + run_together(texts));
        assert(continued(d, run_together(tail)).lines =~= continued(
            c,
            run_together(texts),
        ).lines);
        assert(events_work(c, all) =~= events_work(d, chunks(tail) + rest));
    }
}

/// A streamed answer is shown as one line of the agent, its chunks one behind
/// the other; its end adds nothing to it and ends the turn.
pub proof fn law_streamed_answer_is_one_line(
    c: ChatView,
    texts: Seq<Seq<char>>,
    whole: Seq<char>,
)
    requires
        texts.len() > 0,
        !agent_spoke_last(c),
    ensures
        after_events(c, chunks(texts).push(turn_end(whole)), false) == (ChatView {
            pending: Pending::Idle,
            ..said(c, ChatWho::Kannaka, run_together(texts))
        }),
        events_work(c, chunks(texts).push(turn_end(whole))).len() == 0,
{
    reveal_strlit("chunk");
    reveal_strlit("chat");
    let rest = seq![turn_end(whole)];
    let all = chunks(texts) + rest;
    assert(chunks(texts).push(turn_end(whole)) =~= all);
    let tail = texts.subrange(1, texts.len() as int);
    let d = said(c, ChatWho::Kannaka, texts[0]);
    assert(all[0] == ChatEventView::Response(ChatReplyView { kind: "chunk"@, text: texts[0] }));
    assert(all.subrange(1, all.len() as int) =~= chunks(tail) + rest);
    assert(after_event(c, all[0]) == d);
    assert(events_work(c, all) =~= events_work(d, chunks(tail) + rest));
    lemma_chunks_continue(d, tail, rest, false);
    reveal_with_fuel(after_events, 2);
    reveal_with_fuel(events_work, 2);
    let e = continued(d, run_together(tail));
    assert(e.lines =~= said(c, ChatWho::Kannaka, run_together(texts)).lines);
    assert(rest[0] == turn_end(whole));
    assert(rest.subrange(1, 1) =~= seq![]);
    assert(events_work(e, rest) =~= seq![]);
    assert("chat"@.len() != "chunk"@.len());
    assert(after_event(e, rest[0]) == (ChatView { pending: Pending::Idle, ..e }));
}

/// An answer that was not streamed is shown when it is there, and ends the
/// turn.
pub proof fn law_whole_answer_is_shown(c: ChatView, text: Seq<char>)
    requires
        !agent_spoke_last(c),
    ensures
        after_events(c, seq![turn_end(text)], false) == (ChatView {
            pending: Pending::Idle,
            ..said(c, ChatWho::Kannaka, text)
        }),
{
    reveal_strlit("chunk");
    reveal_strlit("chat");
    reveal_with_fuel(after_events, 2);
    let all = seq![turn_end(text)];
    assert(all[0] == turn_end(text));
    assert(all.subrange(1, 1) =~= seq![]);
    assert("chat"@.len() != "chunk"@.len());
}

/// The chat child lives until it closes or its stream is lost.
pub proof fn law_child_lives_on(c: ChatView, events: Seq<ChatEventView>)
    requires
        c.child is Some,
        forall|i: int| 0 <= i < events.len() ==> !((#[trigger] events[i]) is Closed),
    ensures
        after_events(c, events, false).child is Some,
    decreases events.len(),
{
    if events.len() > 0 {
        let rest = events.subrange(1, events.len() as int);
        assert(forall|i: int| 0 <= i < rest.len() ==> rest[i] == events[i + 1]);
        law_child_lives_on(after_event(c, events[0]), rest);
    }
}

/// One chat child serves turn after turn: while there is one, a turn starts
/// no other; once it is gone, the next turn starts one.
pub proof fn law_child_serves_every_turn(a: AppView, line: Seq<char>)
    ensures
        a.chat.child is Some ==> forall|i: int|
            0 <= i < talked(a, line).work.len() ==> (#[trigger] talked(a, line).work[i]).task
                != Task::Chat,
        a.chat.child is None ==> talked(a, line).work.len() > 0 && talked(a, line).work[0].task
            == Task::Chat,
        talked(a, line).app.chat.child is Some,
{
}

/// A chat that lost its child waits for nothing, and says so.
pub proof fn law_closed_child_frees_the_bar(c: ChatView, reason: Seq<char>)
    ensures
        child_closed(c, reason).child is None,
        child_closed(c, reason).pending == Pending::Idle,
        child_closed(c, reason).lines.len() == c.lines.len() + 1,
        child_work(child_closed(c, reason)).len() == 1,
{
}

/// A message that had to wait for a new chat child is written to it as soon
/// as that can be, and only once.
pub proof fn law_waiting_message_is_sent(a: AppView, line: Seq<char>)
    requires
        a.chat.child is None,
    ensures
        ({
            let c = talked(a, line).app.chat;
            let d = after_event(c, ChatEventView::Attached);
            &&& c.waiting == Some(line)
            &&& event_work(c, ChatEventView::Attached) == seq![
                work(Task::Send, seq![line]),
            ]
            &&& event_work(d, ChatEventView::Attached).len() == 0
            &&& turn_work(d, line) == seq![work(Task::Send, seq![line])]
        }),
{
}

/// A plugin that is through frees the bar.
pub proof fn law_plugin_end_frees_the_bar(c: ChatView, lines: Seq<Seq<char>>)
    requires
        c.plugin,
    ensures
        plugin_polled(c, lines, true).pending == Pending::Idle,
        !plugin_polled(c, lines, true).plugin,
{
}

} // verus!

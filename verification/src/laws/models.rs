//! What holds of the models: they hold all that the values hold, item by item
//! and character by character.

use crate::agents::Agents;
use crate::app::{observe_news, status_news};
use crate::bus::{AgentSnapshot, BusLine, BusUpdate, DreamEvent, Frame};
use crate::chat::{chat_events, Chat, ChatEvent, ChatEventView, ChatWho, Pending};
use crate::command::{Command, CommandView};
use crate::dream::{DreamNews, DreamNewsView, DreamRunState, DreamRunView, Dreamer};
use crate::effect::{effects, Effect, Plugin};
use crate::input::InputBar;
use crate::json::{trees, Json, Payload};
use crate::live::{agent_reports, bus_lines, dream_reports, BusStatus, Live};
use crate::model::{messages_view, Message, News, NewsView};
use crate::reply::{
    memories_view, text_reply, ChatReply, MemoryEntry, Outcome, OutcomeView, Status,
};
use crate::runs::{PassEnd, PassEndView};
use crate::screen::bars::{tab_names, TabBar};
use crate::screen::constellation_tab::{dots, Dot};
use crate::screen::status_tab::{Gauge, Gauges};
use crate::style::{page, Line, Panel};
use crate::text::texts;
use vstd::prelude::*;

verus! {

/// Lists of texts and of work are modelled item by item.
pub proof fn law_lists_are_modelled_item_by_item(
    t: Seq<String>,
    e: Seq<Effect>,
    c: Seq<ChatEvent>,
    i: int,
    j: int,
)
    ensures
        texts(t).len() == t.len(),
        0 <= i < t.len() ==> texts(t)[i] == t[i]@,
        effects(e).len() == e.len(),
        0 <= i < e.len() ==> effects(e)[i].task == e[i].task && effects(e)[i].args.len()
            == e[i].args@.len(),
        0 <= i < e.len() && 0 <= j < e[i].args@.len() ==> effects(e)[i].args[j] == e[i].args@[j]@,
        chat_events(c).len() == c.len(),
        0 <= i < c.len() ==> chat_events(c)[i] == c[i]@,
{
}

/// Lists of reports, of rows, of messages and of documents are modelled item
/// by item.
pub proof fn law_reports_are_modelled_item_by_item(
    b: Seq<BusLine>,
    a: Seq<AgentSnapshot>,
    d: Seq<DreamEvent>,
    m: Seq<MemoryEntry>,
    g: Seq<Message>,
    i: int,
)
    ensures
        bus_lines(b).len() == b.len(),
        0 <= i < b.len() ==> bus_lines(b)[i] == b[i]@,
        agent_reports(a).len() == a.len(),
        0 <= i < a.len() ==> agent_reports(a)[i] == a[i]@,
        dream_reports(d).len() == d.len(),
        0 <= i < d.len() ==> dream_reports(d)[i] == d[i]@,
        memories_view(m).len() == m.len(),
        0 <= i < m.len() ==> memories_view(m)[i] == m[i]@,
        messages_view(g).len() == g.len(),
        0 <= i < g.len() ==> messages_view(g)[i].role == g[i].role && messages_view(g)[i].content
            == g[i].content@,
{
}

/// The items of a list of documents are modelled one for one.
pub proof fn law_documents_are_modelled_item_by_item(j: Seq<Json>, i: int)
    ensures
        trees(j).len() == j.len(),
        0 <= i < j.len() ==> trees(j)[i] == j[i].tree(),
{
}

/// What is heard of a poll is modelled as it is.
pub proof fn law_news_are_modelled(s: News<Status>, o: News<(u64, Vec<MemoryEntry>)>)
    ensures
        match s {
            News::Nothing => status_news(s) is Nothing,
            News::Reply(Ok(x)) => status_news(s) == NewsView::Reply(Ok::<_, Seq<char>>(x@)),
            News::Reply(Err(e)) => status_news(s) == NewsView::Reply(
                Err::<crate::reply::StatusView, _>(e@),
            ),
            News::Lost => status_news(s) is Lost,
        },
        match o {
            News::Nothing => observe_news(o) is Nothing,
            News::Reply(Ok((links, m))) => observe_news(o) == NewsView::Reply(
                Ok::<_, Seq<char>>((links, memories_view(m@))),
            ),
            News::Reply(Err(e)) => observe_news(o) == NewsView::Reply(
                Err::<(u64, Seq<crate::reply::MemoryView>), _>(e@),
            ),
            News::Lost => observe_news(o) is Lost,
        },
{
}

/// How a run ended, and what it wrote, is modelled as it is.
pub proof fn law_ends_of_runs_are_modelled(
    o: Outcome,
    p: PassEnd,
    r: Result<String, String>,
    n: DreamNews,
)
    ensures
        match o {
            Outcome::Success(t) => o@ == OutcomeView::Success(t@),
            Outcome::Failure { code, stderr } => o@ == (OutcomeView::Failure {
                code,
                stderr: stderr@,
            }),
            Outcome::NotRun(t) => o@ == OutcomeView::NotRun(t@),
        },
        match p {
            PassEnd::Success(t) => p@ == PassEndView::Success(t@),
            PassEnd::Failure(t) => p@ == PassEndView::Failure(t@),
            PassEnd::NotStarted(t) => p@ == PassEndView::NotStarted(t@),
            PassEnd::NotWaited(t) => p@ == PassEndView::NotWaited(t@),
            PassEnd::NotCollected(t) => p@ == PassEndView::NotCollected(t@),
            PassEnd::TimedOut(secs) => p@ == PassEndView::TimedOut(secs),
            PassEnd::Panicked => p@ is Panicked,
        },
        match r {
            Ok(t) => text_reply(r) == Ok::<_, Seq<char>>(t@),
            Err(t) => text_reply(r) == Err::<Seq<char>, _>(t@),
        },
        match n {
            DreamNews::Nothing => n@ is Nothing,
            DreamNews::Reply(a) => n@ == DreamNewsView::Reply(text_reply(a)),
            DreamNews::Lost => n@ is Lost,
        },
{
}

/// What a line of input asks for is modelled as it is.
pub proof fn law_commands_are_modelled(c: Command)
    ensures
        match c {
            Command::Remember(t) => c@ == CommandView::Remember(t@),
            Command::Recall(t) => c@ == CommandView::Recall(t@),
            Command::Forget(t) => c@ == CommandView::Forget(t@),
            Command::Dream(t) => c@ == CommandView::Dream(t@),
            Command::Refresh => c@ is Refresh,
            Command::HearUsage => c@ is HearUsage,
            Command::Passthrough { label, args, timeout_secs } => c@ == (CommandView::Passthrough {
                label: label@,
                args: texts(args@),
                timeout_secs,
            }),
            Command::Help => c@ is Help,
            Command::Quit => c@ is Quit,
            Command::Chat => c@ is Chat,
        },
{
}

/// What the chat child does is modelled as it is.
pub proof fn law_events_are_modelled(e: ChatEvent, r: ChatReply)
    ensures
        r@.kind == r.kind@ && r@.text == r.text@,
        match e {
            ChatEvent::Attached => e@ is Attached,
            ChatEvent::Ready => e@ is Ready,
            ChatEvent::Response(x) => e@ == ChatEventView::Response(x@),
            ChatEvent::Closed(t) => e@ == ChatEventView::Closed(t@),
        },
{
}

/// Readings and reports are modelled reading by reading.
pub proof fn law_readings_are_modelled(
    s: Status,
    m: MemoryEntry,
    a: AgentSnapshot,
    d: DreamEvent,
    l: BusLine,
)
    ensures
        s@.phi == s.phi && s@.xi == s.xi && s@.order == s.order && s@.memories == s.memories,
        s@.clusters == s.clusters && s@.links == s.links && s@.level == s.level@ && s@.active
            == s.active,
        m@.content == m.content@ && m@.amplitude == m.amplitude,
        a@.agent_id == a.agent_id@ && a@.theta == a.theta && a@.phi == a.phi && a@.coherence
            == a.coherence,
        a@.order_parameter == a.order_parameter && a@.handedness == a.handedness@ && a@.memory_count
            == a.memory_count && a@.last_seen == a.last_seen,
        d@.ts_ms == d.ts_ms && d@.agent_id == d.agent_id@ && d@.cycles == d.cycles && d@.strengthened
            == d.strengthened && d@.pruned == d.pruned,
        d@.new_connections == d.new_connections && d@.hallucinations == d.hallucinations
            && d@.consciousness_before == d.consciousness_before && d@.consciousness_after
            == d.consciousness_after && d@.emerged == d.emerged,
        l@.ts_ms == l.ts_ms && l@.subject == l.subject@ && l@.summary == l.summary@,
{
}

/// Frames, and what they bring, are modelled part by part.
pub proof fn law_frames_are_modelled(f: Frame, p: Payload, u: BusUpdate)
    ensures
        f@.ts_ms == f.ts_ms && f@.subject == f.subject@ && f@.payload == f.payload@,
        p@.tree == p.json.tree(),
        p.compact matches Some(t) ==> p@.compact == Some(t@),
        p.compact is None ==> p@.compact is None,
        u@.line == u.line@,
        u.agent matches Some(a) ==> u@.agent == Some(a@),
        u.agent is None ==> u@.agent is None,
        u.dream matches Some(d) ==> u@.dream == Some(d@),
        u.dream is None ==> u@.dream is None,
{
}

/// The chat, the local dream and the live view are modelled part by part.
pub proof fn law_parts_are_modelled(c: Chat, d: Dreamer, v: Live, b: InputBar, g: Agents, i: int)
    ensures
        c@.lines.len() == c.lines@.len(),
        0 <= i < c.lines@.len() ==> c@.lines[i].who == c.lines@[i].who && c@.lines[i].text
            == c.lines@[i].text@,
        c@.pending == c.pending && c@.tick == c.tick && c@.child == c.child && c@.plugin
            == c.plugin,
        c.waiting matches Some(m) ==> c@.waiting == Some(m@),
        c.waiting is None ==> c@.waiting is None,
        d@.busy == d.busy,
        match d.run {
            DreamRunState::Idle => d@.run is Idle,
            DreamRunState::Running { mode, started } => d@.run == (DreamRunView::Running {
                mode: mode@,
                started,
            }),
            DreamRunState::Done { mode, took, summary } => d@.run == (DreamRunView::Done {
                mode: mode@,
                took,
                summary: summary@,
            }),
            DreamRunState::Failed { mode, error } => d@.run == (DreamRunView::Failed {
                mode: mode@,
                error: error@,
            }),
        },
        v@.status == v.status && v@.child == v.child && v@.lines_open == v.lines_open
            && v@.agents_open == v.agents_open && v@.dreams_open == v.dreams_open,
        v@.lines.len() == v.lines@.len(),
        0 <= i < v.lines@.len() ==> v@.lines[i] == v.lines@[i]@,
        v@.dreams.len() == v.dreams@.len(),
        0 <= i < v.dreams@.len() ==> v@.dreams[i] == v.dreams@[i]@,
        v@.agents == crate::agents::by_name(v.agents@),
        g@.len() == g.list@.len(),
        0 <= i < g.list@.len() ==> g@[i] == g.list@[i]@,
        b@.text == b.text@ && b@.cursor == b.cursor && b@.history_idx == b.history_idx
            && b@.history.len() == b.history@.len(),
        0 <= i < b.history@.len() ==> b@.history[i] == b.history@[i]@,
{
}

/// A page and a panel are modelled line by line and piece by piece, with the
/// text and the style of each.
pub proof fn law_panels_are_modelled(p: Panel, lines: Seq<Line>, i: int, j: int)
    ensures
        page(lines).len() == lines.len(),
        0 <= i < lines.len() ==> page(lines)[i].len() == lines[i].spans@.len(),
        0 <= i < lines.len() && 0 <= j < lines[i].spans@.len() ==> page(lines)[i][j].text
            == lines[i].spans@[j].text@ && page(lines)[i][j].style == lines[i].spans@[j].style,
        p@.lines == page(p.lines@),
        p@.title == p.title@ && p@.footer == p.footer@,
        p@.border == p.border && p@.ground == p.ground && p@.base == p.base && p@.flow == p.flow,
{
}

/// The tab bar, the gauges and the marks are modelled part by part.
pub proof fn law_widgets_are_modelled(t: TabBar, g: Gauge, s: Gauges, d: Seq<Dot>, i: int)
    ensures
        t@.titles == page(t.titles@) && t@.selected == t.selected && t@.highlight == t.highlight
            && t@.frame == t.frame@,
        t@.divider.text == t.divider.text@ && t@.divider.style == t.divider.style,
        g@.frame == g.frame@ && g@.bar == g.bar && g@.bits == g.bits,
        s@.phi == s.phi@ && s@.xi == s.xi@ && s@.order == s.order@ && s@.info == s.info@,
        dots(d).len() == d.len(),
        0 <= i < d.len() ==> dots(d)[i].label == d[i].label@ && dots(d)[i].color == d[i].color,
{
}

/// Each part of the dashboard begins empty: an idle chat with one line of the
/// system and no child, a live view of nothing, a bar without a text.
pub proof fn law_everything_begins_empty()
    ensures
        Chat::new_view().lines.len() == 1,
        Chat::new_view().lines[0].who == ChatWho::System,
        Chat::new_view().pending == Pending::Idle,
        Chat::new_view().child is None && Chat::new_view().waiting is None
            && !Chat::new_view().plugin,
        Live::new_view().lines.len() == 0 && Live::new_view().dreams.len() == 0,
        Live::new_view().agents == Map::<Seq<char>, crate::bus::AgentView>::empty(),
        Live::new_view().status == BusStatus::Off && !Live::new_view().child,
        !Live::new_view().lines_open && !Live::new_view().agents_open
            && !Live::new_view().dreams_open,
        InputBar::new_view().text.len() == 0 && InputBar::new_view().cursor == 0,
        InputBar::new_view().history.len() == 0 && InputBar::new_view().history_idx is None,
{
}

/// The tabs stand where their names do in the tab bar.
pub proof fn law_tabs_stand_where_they_are_named()
    ensures
        tab_names().len() == crate::model::TAB_COUNT,
        tab_names()[crate::model::CHAT_TAB as int] == "Chat"@,
        tab_names()[crate::model::STATUS_TAB as int] == "Status"@,
        tab_names()[crate::model::DREAMS_TAB as int] == "Dreams"@,
{
}

/// A plugin is called by a slash command of its own.
pub proof fn law_plugins_have_their_own_names(x: Plugin, y: Plugin)
    requires
        x != y,
    ensures
        x.slash() != y.slash(),
        x.program() != y.program(),
        Plugin::Code.slash() == "/code"@,
        Plugin::Topus.slash() == "/topus"@,
{
    reveal_strlit("/code");
    reveal_strlit("/topus");
    reveal_strlit("kannaka-code");
    reveal_strlit("kannaktopus");
    assert(Plugin::Code.slash().len() == 5);
    assert(Plugin::Topus.slash().len() == 6);
    assert(Plugin::Code.program().len() == 12);
    assert(Plugin::Topus.program().len() == 11);
}

} // verus!

//! What holds of the screens: what is known is shown, each thing in its own
//! place.

use crate::agents::{by_name, sorted};
use crate::app::App;
use crate::bus::{subject_color, AgentView, DreamView};
use crate::chat::{ChatLineView, ChatWho, Pending};
use crate::clock::{bus_time, in_calendar, is_zone};
use crate::dream::DreamRunView;
use crate::live::{BusStatus, LiveView};
use crate::model::{AppView, MessageView, Role};
use crate::reply::StatusView;
use crate::screen::bars::{header_doubles, header_panel, input_panel, tab_bar, tab_mark, Readings};
use crate::screen::bus_tab::{bus_label, bus_panel};
use crate::screen::chat_tab::{chat_panel, conversation, speaker, spinner, spoken};
use crate::screen::constellation_tab::{
    agents_panel, dots_of, plot_frame, radius_of, waiting_panel, AgentReading,
};
use crate::screen::dreams_tab::{history_panel, run_panel, DreamReading};
use crate::screen::layout::{laid_out, law_two_shares_divide, tab_parts, Area};
use crate::screen::memory_tab::{
    count_lines, gauge_bar, log_panel, memories_panel, memory_line, role_mark, window, Amplitude,
};
use crate::screen::status_tab::gauges;
use crate::screen::whole::{screen_shows, Body, Given, Screen};
use crate::shade::{agent_shade, amplitude_shade, delta_shade, level_shade, lowercase, phi_shade};
use crate::single::{is_nan, law_rank_orders_values, value};
use crate::style::{color_parts, framed, heading, single_line, Color, Flow, SpanView, Style};
use crate::text::{
    digits, first_chars, has_part, has_prefix, law_part_of_a_sum, left_aligned, number_read,
    on_one_line, right_aligned, shortened,
};
use vstd::prelude::*;

verus! {

/// The text of a line, whatever its style.
pub open spec fn line_text(line: Seq<SpanView>) -> Seq<char>
    decreases line.len(),
{
    if line.len() == 0 {
        seq![]
    } else {
        line_text(line.drop_last()) + line.last().text
    }
}

proof fn lemma_one_piece(a: SpanView)
    ensures
        line_text(seq![a]) == a.text,
{
    reveal_with_fuel(line_text, 2);
    assert(seq![a].drop_last() =~= seq![]);
    assert(line_text(seq![a]) =~= a.text);
}

proof fn lemma_two_pieces(a: SpanView, b: SpanView)
    ensures
        line_text(seq![a, b]) == a.text + b.text,
{
    lemma_one_piece(a);
    assert(seq![a, b].drop_last() =~= seq![a]);
}

proof fn lemma_three_pieces(a: SpanView, b: SpanView, c: SpanView)
    ensures
        line_text(seq![a, b, c]) == a.text + b.text + c.text,
{
    lemma_two_pieces(a, b);
    assert(seq![a, b, c].drop_last() =~= seq![a, b]);
}

// ---------------------------------------------------------------------------
// Colours
// ---------------------------------------------------------------------------

/// The colour of phi tells in which of four ranges it lies, and of an
/// amplitude in which of three; what is no number lies in the lowest.
pub proof fn law_shades_tell_the_range(x: u32)
    ensures
        is_nan(x) ==> phi_shade(x) == Color::Error && amplitude_shade(x) == Color::Dim
            && delta_shade(x) == Color::Dim,
        !is_nan(x) ==> {
            &&& phi_shade(x) == Color::Success <==> value(x) >= value(0x3f4c_cccd)
            &&& phi_shade(x) == Color::Warning <==> value(0x3f00_0000) <= value(x) < value(
                0x3f4c_cccd,
            )
            &&& phi_shade(x) == Color::Rgb(255, 165, 0) <==> value(0x3e4c_cccd) <= value(x) < value(
                0x3f00_0000,
            )
            &&& phi_shade(x) == Color::Error <==> value(x) < value(0x3e4c_cccd)
            &&& amplitude_shade(x) == Color::Accent <==> value(x) >= value(0x3f4c_cccd)
            &&& amplitude_shade(x) == Color::Info <==> value(0x3f00_0000) <= value(x) < value(
                0x3f4c_cccd,
            )
            &&& amplitude_shade(x) == Color::Dim <==> value(x) < value(0x3f00_0000)
            &&& delta_shade(x) == Color::Success <==> value(x) > value(0x3a83_126f)
            &&& delta_shade(x) == Color::Error <==> value(x) < -value(0x3a83_126f)
            &&& delta_shade(x) == Color::Dim <==> -value(0x3a83_126f) <= value(x) <= value(
                0x3a83_126f,
            )
        },
{
    if !is_nan(x) {
        law_rank_orders_values(x, 0x3f4c_cccd);
        law_rank_orders_values(x, 0x3f00_0000);
        law_rank_orders_values(x, 0x3e4c_cccd);
        law_rank_orders_values(x, 0x3a83_126f);
        law_rank_orders_values(0xba83_126f, x);
        law_rank_orders_values(0x3f4c_cccd, 0x3f00_0000);
        law_rank_orders_values(0x3f00_0000, 0x3e4c_cccd);
        law_rank_orders_values(0x3a83_126f, 0);
        assert(value(0xba83_126f) == -value(0x3a83_126f));
        assert(value(0) == 0);
    }
}

/// An agent with a handedness has the colour of that, whatever its phi; any
/// other agent has the colour of its phi.
pub proof fn law_handedness_decides_before_phi(phi: u32, other: u32, handedness: Seq<char>)
    ensures
        agent_shade("left"@, phi) == agent_shade("left"@, other),
        agent_shade("right"@, phi) == agent_shade("right"@, other),
        agent_shade("chiral"@, phi) == agent_shade("chiral"@, other),
        agent_shade("left"@, phi) == Color::Rgb(255, 120, 120),
        agent_shade("right"@, phi) == Color::Rgb(120, 200, 255),
        agent_shade("chiral"@, phi) == Color::Rgb(255, 180, 100),
        handedness != "left"@ && handedness != "right"@ && handedness != "chiral"@ ==> agent_shade(
            handedness,
            phi,
        ) == phi_shade(phi),
{
    reveal_strlit("left");
    reveal_strlit("right");
    reveal_strlit("chiral");
    assert("left"@.len() == 4);
    assert("right"@.len() == 5);
    assert("chiral"@.len() == 6);
}

/// A level is shown in one of three colours if and only if it is one of the
/// levels of that colour, and grey else.
pub proof fn law_levels_have_their_colours(level: Seq<char>)
    ensures
        level_shade(level) == Color::Success <==> level == "resonant"@ || level == "transcendent"@
            || level == "awakened"@,
        level_shade(level) == Color::Info <==> level == "coherent"@ || level == "synchronized"@,
        level_shade(level) == Color::Warning <==> level == "emerging"@ || level == "developing"@,
        level_shade(level) == Color::Success || level_shade(level) == Color::Info || level_shade(
            level,
        ) == Color::Warning || level_shade(level) == Color::Dim,
{
    reveal_strlit("resonant");
    reveal_strlit("transcendent");
    reveal_strlit("awakened");
    reveal_strlit("coherent");
    reveal_strlit("synchronized");
    reveal_strlit("emerging");
    reveal_strlit("developing");
    assert("resonant"@[0] == 'r');
    assert("transcendent"@[0] == 't');
    assert("awakened"@[0] == 'a');
    assert("coherent"@[0] == 'c');
    assert("synchronized"@[0] == 's');
    assert("emerging"@[0] == 'e');
    assert("developing"@[0] == 'd');
}

/// A colour given by its parts has these parts, and no two colours of the
/// palette look alike.
pub proof fn law_colours_look_different(r: u8, g: u8, b: u8, x: Color, y: Color)
    requires
        !(x is Rgb),
        !(y is Rgb),
        x != y,
    ensures
        color_parts(Color::Rgb(r, g, b)) == (r, g, b),
        color_parts(x) != color_parts(y),
{
}

// ---------------------------------------------------------------------------
// Times
// ---------------------------------------------------------------------------

proof fn lemma_two_digits(n: nat)
    requires
        n < 100,
    ensures
        crate::clock::two_digits(n).len() == 2,
        number_read(crate::clock::two_digits(n)) == n,
{
    let t = crate::clock::two_digits(n);
    reveal_with_fuel(number_read, 3);
    assert(t.drop_last().drop_last() =~= seq![]);
}

/// A time is shown as hours, minutes and seconds of its day in the local zone,
/// two digits each; a frame without a time shows blanks.
pub proof fn law_time_reads_back(ts_ms: i64, offset_secs: i32)
    ensures
        ts_ms != 0 && in_calendar(ts_ms) && is_zone(offset_secs) ==> {
            let t = bus_time(ts_ms, offset_secs);
            let hours = number_read(t.subrange(0, 2));
            let minutes = number_read(t.subrange(3, 5));
            let seconds = number_read(t.subrange(6, 8));
            &&& t.len() == 8 && t[2] == ':' && t[5] == ':'
            &&& 0 <= hours < 24 && 0 <= minutes < 60 && 0 <= seconds < 60
            &&& hours * 3600 + minutes * 60 + seconds == (ts_ms as int / 1000 + offset_secs) % 86400
        },
        bus_time(0, offset_secs) == seq![' ', ' ', ' ', ' ', ' ', ' ', ' ', ' '],
{
    reveal_strlit("        ");
    assert("        "@ =~= seq![' ', ' ', ' ', ' ', ' ', ' ', ' ', ' ']);
    if ts_ms != 0 && in_calendar(ts_ms) && is_zone(offset_secs) {
        let s = crate::clock::second_of_day(ts_ms, offset_secs);
        let t = bus_time(ts_ms, offset_secs);
        lemma_two_digits(s / 3600);
        lemma_two_digits(s / 60 % 60);
        lemma_two_digits(s % 60);
        assert(t.subrange(0, 2) =~= crate::clock::two_digits(s / 3600));
        assert(t.subrange(3, 5) =~= crate::clock::two_digits(s / 60 % 60));
        assert(t.subrange(6, 8) =~= crate::clock::two_digits(s % 60));
    }
}

// ---------------------------------------------------------------------------
// The constellation
// ---------------------------------------------------------------------------

/// A listing by name holds each agent once, in the order of the names, with
/// what it reported last.
pub proof fn law_listing_holds_each_agent_once(v: Seq<AgentView>, i: int, j: int)
    requires
        sorted(v),
        0 <= i < j < v.len(),
    ensures
        crate::agents::precedes(v[i].agent_id, v[j].agent_id),
        v[i].agent_id != v[j].agent_id,
        by_name(v).contains_key(v[i].agent_id),
        by_name(v)[v[i].agent_id] == v[i],
        by_name(v).contains_key(v[j].agent_id),
        by_name(v)[v[j].agent_id] == v[j],
{
    crate::agents::lemma_by_name(v);
    crate::agents::lemma_precedes_irreflexive(v[i].agent_id);
}

/// Every agent has a row of its own in the list, in their order, below the
/// head. It shows the beginning of the agent's name and that agent's own
/// readings, phi, the phase angle, the order and the number of memories, side
/// by side.
pub proof fn law_list_shows_every_agent(
    agents: Seq<AgentView>,
    readings: Seq<AgentReading>,
    now: u64,
    i: int,
)
    requires
        agents.len() == readings.len(),
        0 <= i < agents.len(),
    ensures
        agents_panel(agents, readings, now).lines.len() == agents.len() + 1,
        ({
            let row = agents_panel(agents, readings, now).lines[i + 1];
            let a = agents[i];
            let r = readings[i];
            let mark = if a.last_seen + 120_000_000_000 <= now {
                seq!['\u{b7}', ' ']
            } else {
                seq![' ', ' ']
            };
            let blank = seq![' '];
            line_text(row) == mark + left_aligned(shortened(a.agent_id, 14), 14) + (blank
                + right_aligned(r.phi@, 5) + blank + right_aligned(r.theta@, 5) + blank
                + right_aligned(r.order@, 4) + blank + right_aligned(
                digits(a.memory_count as nat),
                5,
            ))
        }),
{
    let row = agents_panel(agents, readings, now).lines[i + 1];
    lemma_three_pieces(row[0], row[1], row[2]);
    assert(row =~= seq![row[0], row[1], row[2]]);
    reveal_strlit("\u{b7} ");
    reveal_strlit("  ");
    reveal_strlit(" ");
    assert("\u{b7} "@ =~= seq!['\u{b7}', ' ']);
    assert("  "@ =~= seq![' ', ' ']);
    assert(" "@ =~= seq![' ']);
}

/// An agent has the same colour in the list and on the plot: by its handedness
/// and its own phi while it has reported within two minutes, and grey then.
pub proof fn law_agents_have_their_own_colour(
    agents: Seq<AgentView>,
    readings: Seq<AgentReading>,
    now: u64,
    i: int,
)
    requires
        agents.len() == readings.len(),
        0 <= i < agents.len(),
    ensures
        dots_of(agents, readings, now).len() == agents.len(),
        ({
            let row = agents_panel(agents, readings, now).lines[i + 1];
            let dot = dots_of(agents, readings, now)[i];
            let color = if agents[i].last_seen + 120_000_000_000 <= now {
                Color::Dim
            } else {
                agent_shade(agents[i].handedness, readings[i].phi_bits)
            };
            &&& dot.color == color
            &&& dot.label == shortened(agents[i].agent_id, 14)
            &&& row.len() == 3
            &&& row[1].style.fg == Some(color)
            &&& has_prefix(row[1].text, dot.label)
        }),
{
    let label = shortened(agents[i].agent_id, 14);
    let row = agents_panel(agents, readings, now).lines[i + 1];
    assert(row[1].text.subrange(0, label.len() as int) =~= label);
}

/// The row and the mark of an agent depend on that agent and its reading
/// alone: what the others report does not matter.
pub proof fn law_agents_do_not_mix(
    agents: Seq<AgentView>,
    others: Seq<AgentView>,
    readings: Seq<AgentReading>,
    more: Seq<AgentReading>,
    now: u64,
    i: int,
)
    requires
        agents.len() == readings.len(),
        others.len() == more.len(),
        0 <= i < agents.len(),
        i < others.len(),
        agents[i] == others[i],
        readings[i] == more[i],
    ensures
        agents_panel(agents, readings, now).lines[i + 1] == agents_panel(
            others,
            more,
            now,
        ).lines[i + 1],
        dots_of(agents, readings, now)[i] == dots_of(others, more, now)[i],
{
}

/// An agent stands as far out as its coherence says, or as its order parameter
/// says where it reports no coherence.
pub proof fn law_coherence_comes_first(a: AgentView)
    ensures
        a.coherence != 0 && a.coherence != 0x8000_0000_0000_0000 ==> radius_of(a) == a.coherence,
        a.coherence == 0 || a.coherence == 0x8000_0000_0000_0000 ==> radius_of(a)
            == a.order_parameter,
{
}

/// The title of the plot tells how many agents there are.
pub proof fn law_plot_counts_the_agents(count: nat)
    ensures
        plot_frame(count).title.len() == 1,
        has_part(plot_frame(count).title[0].text, digits(count)),
{
    law_part_of_a_sum(
        " Constellation \u{b7} "@,
        digits(count),
        if count == 1 {
            " agent "@
        } else {
            " agents "@
        },
    );
}

// ---------------------------------------------------------------------------
// The memory tab
// ---------------------------------------------------------------------------

/// The messages in sight are as many as there are and fit: all of them where
/// nothing is scrolled past and there is room.
pub proof fn law_window_is_full(messages: Seq<MessageView>, skipped: nat, height: nat)
    ensures
        skipped <= messages.len() ==> window(messages, skipped, height).len() == if messages.len()
            - skipped <= height {
            messages.len() - skipped
        } else {
            height as int
        },
        messages.len() <= height ==> window(messages, 0, height) == messages,
{
    if messages.len() <= height {
        assert(window(messages, 0, height) =~= messages);
    }
}

/// The command log shows a line for each message in sight and in their order,
/// with the whole of its content behind a mark of its role.
pub proof fn law_log_shows_messages_whole(a: AppView, height: u16)
    ensures
        ({
            let lines = log_panel(a, height).lines;
            let shown = window(a.messages, a.scroll_offset as nat, height as nat);
            &&& lines.len() == shown.len()
            &&& forall|i: int|
                #![trigger lines[i]]
                0 <= i < lines.len() ==> {
                    &&& lines[i].len() == 2
                    &&& lines[i][0].text == role_mark(shown[i].role).0
                    &&& lines[i][1].text == shown[i].content
                    &&& lines[i][1].style.fg == Some(role_mark(shown[i].role).1)
                }
        }),
{
}

/// Each role has a mark and a colour of its own.
pub proof fn law_roles_look_different(x: Role, y: Role)
    requires
        x != y,
    ensures
        role_mark(x).0 != role_mark(y).0,
        role_mark(x).1 != role_mark(y).1,
{
    reveal_strlit("> ");
    reveal_strlit("\u{2192} ");
    reveal_strlit("\u{2713} ");
    reveal_strlit("\u{2717} ");
    assert(role_mark(Role::User).0[0] == '>');
    assert(role_mark(Role::System).0[0] == '\u{2192}');
    assert(role_mark(Role::Result).0[0] == '\u{2713}');
    assert(role_mark(Role::Error).0[0] == '\u{2717}');
}

/// A bar has ten cells, of which as many are full from the left as there are
/// tenths, ten at most.
pub proof fn law_bar_has_ten_cells(tenths: usize)
    ensures
        gauge_bar(tenths).len() == 10,
        forall|k: int|
            0 <= k < 10 ==> #[trigger] gauge_bar(tenths)[k] == if k < tenths {
                '\u{2588}'
            } else {
                '\u{2591}'
            },
{
}

/// The memories are shown from the strongest on, as many as there is room for
/// above the counts, each with its own amplitude: as a bar, in its colour, and
/// in figures behind the beginning of its content.
pub proof fn law_memories_are_shown_in_order(
    a: AppView,
    amplitudes: Seq<Amplitude>,
    height: u16,
    i: int,
)
    requires
        amplitudes.len() == a.memories.len(),
    ensures
        ({
            let lines = memories_panel(a, amplitudes, height).lines;
            let room = if height < 6 {
                0
            } else {
                height - 6
            };
            let n = if a.memories.len() <= room {
                a.memories.len() as int
            } else {
                room
            };
            &&& lines.len() == n + 5
            &&& 0 <= i < n ==> {
                let m = a.memories[i];
                let amplitude = amplitudes[i];
                &&& line_text(lines[i]) == gauge_bar(amplitude.tenths) + seq![' '] + (first_chars(
                    m.content,
                    24,
                ) + " ("@ + amplitude.fixed2@ + ")"@)
                &&& lines[i][0].style.fg == Some(amplitude_shade(amplitude.bits))
            }
            &&& forall|k: int| 0 <= k < 5 ==> lines[n + k] == #[trigger] count_lines(a.status)[k]
        }),
{
    let lines = memories_panel(a, amplitudes, height).lines;
    reveal_strlit(" ");
    assert(" "@ =~= seq![' ']);
    let row = memory_line(a.memories[i], amplitudes[i]);
    lemma_three_pieces(row[0], row[1], row[2]);
    assert(row =~= seq![row[0], row[1], row[2]]);
}

/// Below the memories stand the counts of the status and its level, each
/// behind its own label; without a status they are zero and unknown.
pub proof fn law_counts_are_shown(status: Option<StatusView>)
    ensures
        ({
            let lines = count_lines(status);
            let shown = |k: int| lines[k][0].text;
            &&& lines.len() == 5
            &&& status matches Some(s) ==> {
                &&& shown(1) == "  Memories: "@ + digits(s.memories as nat)
                &&& shown(2) == "  Clusters: "@ + digits(s.clusters as nat)
                &&& shown(3) == "  Links: "@ + digits(s.links as nat)
                &&& shown(4) == "  Level: "@ + s.level
                &&& lines[4][0].style.fg == Some(level_shade(lowercase(s.level)))
            }
            &&& status is None ==> {
                &&& shown(1) == "  Memories: "@ + digits(0)
                &&& shown(2) == "  Clusters: "@ + digits(0)
                &&& shown(3) == "  Links: "@ + digits(0)
                &&& shown(4) == "  Level: "@ + "Unknown"@
            }
        }),
{
}

// ---------------------------------------------------------------------------
// The status tab and the bars
// ---------------------------------------------------------------------------

/// Each gauge shows its own reading, in figures and by its bits, and the
/// counts stand below, each behind its own label.
pub proof fn law_gauges_show_their_readings(s: StatusView, readings: Readings)
    ensures
        ({
            let g = gauges(s, readings);
            &&& g.phi.bits == readings.phi.bits && g.xi.bits == readings.xi.bits && g.order.bits
                == readings.order.bits
            &&& has_part(g.phi.frame.title[0].text, readings.phi.fixed3@)
            &&& has_part(g.xi.frame.title[0].text, readings.xi.fixed3@)
            &&& has_part(g.order.frame.title[0].text, readings.order.fixed3@)
            &&& g.phi.bar.fg == Some(phi_shade(readings.phi.bits))
            &&& g.info.lines[1][1].text == s.level
            &&& g.info.lines[1][1].style.fg == Some(level_shade(lowercase(s.level)))
            &&& g.info.lines[3][0].text == "  Total Memories:  "@ && g.info.lines[3][1].text
                == digits(s.memories as nat)
            &&& g.info.lines[4][0].text == "  Active Memories: "@ && g.info.lines[4][1].text
                == digits(s.active as nat)
            &&& g.info.lines[5][0].text == "  Clusters:        "@ && g.info.lines[5][1].text
                == digits(s.clusters as nat)
            &&& g.info.lines[6][0].text == "  Skip Links:      "@ && g.info.lines[6][1].text
                == digits(s.links as nat)
        }),
{
    law_part_of_a_sum(" Phi (Integrated Information): "@, readings.phi.fixed3@, " "@);
    law_part_of_a_sum(" Xi (Irrationality): "@, readings.xi.fixed3@, " "@);
    law_part_of_a_sum(" Order Parameter (r): "@, readings.order.fixed3@, " "@);
}

/// The header shows the agent's name and the three readings as they are, each
/// behind its own label.
pub proof fn law_header_shows_name_and_readings(name: Seq<char>, readings: Readings)
    ensures
        ({
            let line = header_panel(name, readings).lines[0];
            &&& header_panel(name, readings).lines.len() == 1
            &&& line[2].text == name
            &&& line[4].text == "Phi: "@ && line[5].text == readings.phi.fixed3@
            &&& line[5].style.fg == Some(phi_shade(readings.phi.bits))
            &&& line[7].text == "Xi: "@ && line[8].text == readings.xi.fixed3@
            &&& line[10].text == "r: "@ && line[11].text == readings.order.fixed3@
        }),
{
}

/// The readings of the header are those of the status, and zero without one.
pub proof fn law_header_reads_the_status(a: AppView)
    ensures
        a.status matches Some(s) ==> header_doubles(a).0 == s.phi && header_doubles(a).1 == s.xi
            && header_doubles(a).2 == s.order,
        a.status is None ==> header_doubles(a) == (0u64, 0u64, 0u64),
{
}

/// The tab bar names the six tabs in their order, and marks the open one.
pub proof fn law_tab_bar_names_the_tabs(selected: usize)
    ensures
        ({
            let t = tab_bar(selected);
            let name = |k: int| line_text(t.titles[k]);
            &&& t.titles.len() == 6
            &&& name(0) == "Memory"@ && name(1) == "Status"@ && name(2) == "Bus"@
            &&& name(3) == "Constellation"@ && name(4) == "Dreams"@ && name(5) == "Chat"@
            &&& t.selected == selected
        }),
{
    let t = tab_bar(selected);
    assert forall|k: int| 0 <= k < 6 implies line_text(#[trigger] t.titles[k])
        == t.titles[k][0].text by {
        lemma_one_piece(t.titles[k][0]);
        assert(t.titles[k] =~= seq![t.titles[k][0]]);
    }
    assert(t.titles[0][0].text == "Memory"@);
    assert(t.titles[1][0].text == "Status"@);
    assert(t.titles[2][0].text == "Bus"@);
    assert(t.titles[3][0].text == "Constellation"@);
    assert(t.titles[4][0].text == "Dreams"@);
    assert(t.titles[5][0].text == "Chat"@);
}

/// The input bar shows the text of the bar as it is, and the mark of the open
/// tab, which no other tab has.
pub proof fn law_input_bar_shows_the_text(a: AppView, other: usize)
    requires
        a.active_tab < 6,
        other < 6,
        other != a.active_tab,
    ensures
        input_panel(a).lines.len() == 1,
        input_panel(a).lines[0].len() == 2,
        input_panel(a).lines[0][1].text == a.bar.text,
        has_part(input_panel(a).footer[0].text, tab_mark(a.active_tab)),
        tab_mark(a.active_tab) != tab_mark(other),
{
    law_part_of_a_sum(" "@, tab_mark(a.active_tab), " "@);
    reveal_strlit("[M]");
    reveal_strlit("[S]");
    reveal_strlit("[B]");
    reveal_strlit("[C]");
    reveal_strlit("[D]");
    reveal_strlit("[Ch]");
    assert("[M]"@[1] == 'M');
    assert("[S]"@[1] == 'S');
    assert("[B]"@[1] == 'B');
    assert("[C]"@[1] == 'C' && "[C]"@.len() == 3);
    assert("[D]"@[1] == 'D');
    assert("[Ch]"@[1] == 'C' && "[Ch]"@.len() == 4);
}

// ---------------------------------------------------------------------------
// The bus tab
// ---------------------------------------------------------------------------

/// The bus tab shows the newest rows, the newest last, as many as fit and one
/// at least, each with its own time, subject and whole summary; its title
/// counts all rows.
pub proof fn law_bus_tab_shows_the_newest_rows(
    live: LiveView,
    offsets: Seq<i32>,
    height: u16,
    i: int,
)
    requires
        offsets.len() == live.lines.len(),
    ensures
        ({
            let p = bus_panel(live, offsets, height);
            let room = if height <= 3 {
                1
            } else {
                height - 2
            };
            let n = if live.lines.len() <= room {
                live.lines.len() as int
            } else {
                room
            };
            let first = live.lines.len() - n;
            &&& p.lines.len() == n
            &&& 0 <= i < n ==> {
                let row = live.lines[first + i];
                &&& line_text(p.lines[i]) == bus_time(row.ts_ms, offsets[first + i]) + seq![' ']
                    + (left_aligned(shortened(row.subject, 28), 28) + seq![' ']) + row.summary
                &&& p.lines[i][1].style.fg == Some(subject_color(row.subject))
            }
            &&& has_part(p.title[0].text, digits(live.lines.len()))
            &&& has_part(p.title[0].text, bus_label(live.status).0)
            &&& p.border == bus_label(live.status).1
        }),
{
    let p = bus_panel(live, offsets, height);
    reveal_strlit(" ");
    assert(" "@ =~= seq![' ']);
    if 0 <= i < p.lines.len() {
        let row = p.lines[i];
        lemma_three_pieces(row[0], row[1], row[2]);
        assert(row =~= seq![row[0], row[1], row[2]]);
    }
    let label = bus_label(live.status).0;
    let count = digits(live.lines.len());
    let dot = " \u{b7} "@;
    law_part_of_a_sum(" Bus \u{b7} "@ + label + dot, count, " msgs "@);
    law_part_of_a_sum(" Bus \u{b7} "@, label, dot + count + " msgs "@);
    assert(" Bus \u{b7} "@ + label + (dot + count + " msgs "@) =~= " Bus \u{b7} "@ + label + dot
        + count + " msgs "@);
}

/// The colour of the bus tab tells how the stream stands.
pub proof fn law_streams_look_different(x: BusStatus, y: BusStatus)
    requires
        x != y,
    ensures
        bus_label(x).1 != bus_label(y).1,
        bus_label(BusStatus::Streaming).1 == Color::Success,
        bus_label(BusStatus::Failed).1 == Color::Error,
{
}

// ---------------------------------------------------------------------------
// The chat tab
// ---------------------------------------------------------------------------

proof fn lemma_conversation(lines: Seq<ChatLineView>)
    ensures
        conversation(lines).len() == 2 * lines.len(),
        forall|i: int|
            #![trigger lines[i]]
            0 <= i < lines.len() ==> conversation(lines)[2 * i] == spoken(lines[i])
                && conversation(lines)[2 * i + 1].len() == 0,
    decreases lines.len(),
{
    if lines.len() > 0 {
        let front = lines.drop_last();
        lemma_conversation(front);
        assert forall|i: int| #![trigger lines[i]] 0 <= i < lines.len() implies conversation(
            lines,
        )[2 * i] == spoken(lines[i]) && conversation(lines)[2 * i + 1].len() == 0 by {
            if i < front.len() {
                assert(front[i] == lines[i]);
            }
        }
    }
}

/// The chat tab shows every line of the conversation in its order, whole and
/// behind the label of its speaker, with an empty line behind each; while an
/// answer is awaited one line more says so.
pub proof fn law_chat_tab_shows_every_line(a: AppView)
    ensures
        ({
            let shown = chat_panel(a).lines;
            let said = a.chat.lines;
            &&& shown.len() == 2 * said.len() + (if a.chat.pending == Pending::Idle {
                0int
            } else {
                1
            })
            &&& forall|i: int|
                #![trigger said[i]]
                0 <= i < said.len() ==> {
                    &&& shown[2 * i].len() == 2
                    &&& shown[2 * i][0].text == speaker(said[i].who).0
                    &&& shown[2 * i][1].text == said[i].text
                    &&& shown[2 * i + 1].len() == 0
                }
            &&& a.scroll_offset <= u16::MAX ==> chat_panel(a).flow == (Flow::Wrapped {
                scroll: a.scroll_offset as u16,
            })
        }),
{
    lemma_conversation(a.chat.lines);
}

/// Each speaker has a label of its own.
pub proof fn law_speakers_look_different(x: ChatWho, y: ChatWho)
    requires
        x != y,
    ensures
        speaker(x).0 != speaker(y).0,
{
    reveal_strlit("you ");
    reveal_strlit("kannaka ");
    reveal_strlit("\u{b7} ");
    assert(speaker(ChatWho::User).0.len() == 4);
    assert(speaker(ChatWho::Kannaka).0.len() == 8);
    assert(speaker(ChatWho::System).0.len() == 2);
}

/// The spinner goes through four figures, no two of them alike, and begins
/// anew.
pub proof fn law_spinner_goes_round(tick: usize, other: usize)
    ensures
        spinner(tick) == spinner(other) <==> tick % 4 == other % 4,
{
}

// ---------------------------------------------------------------------------
// The dreams tab
// ---------------------------------------------------------------------------

/// The dreams tab shows the newest reports, the newest first, as many as fit
/// and one at least, each with its own agent, figures and change of phi; a
/// star marks emergence. Its title counts all reports.
pub proof fn law_dreams_tab_shows_the_newest_reports(
    dreams: Seq<DreamView>,
    readings: Seq<DreamReading>,
    height: u16,
    i: int,
)
    requires
        readings.len() == dreams.len(),
        dreams.len() > 0,
    ensures
        ({
            let p = history_panel(dreams, readings, height);
            let room = if height <= 4 {
                1
            } else {
                height - 3
            };
            let n = if dreams.len() <= room {
                dreams.len() as int
            } else {
                room
            };
            &&& p.lines.len() == n + 2
            &&& 0 <= i < n ==> {
                let d = dreams[i];
                let r = readings[i];
                let row = p.lines[i + 2];
                &&& row.len() == 6
                &&& row[0].text == if d.emerged {
                    "\u{2605} "@
                } else {
                    "  "@
                }
                &&& row[1].text == bus_time(d.ts_ms, r.offset_secs) + " "@
                &&& row[2].text == left_aligned(shortened(d.agent_id, 14), 14) + " "@
                &&& row[3].text == right_aligned(digits(d.cycles as nat), 6) + "  "@
                &&& row[4].text == right_aligned(r.signed3@, 5) + " "@
                &&& row[4].style.fg == Some(delta_shade(r.delta))
                &&& row[5].text == right_aligned(digits(d.strengthened as nat), 5) + "  "@
                    + right_aligned(digits(d.pruned as nat), 5) + "  "@ + right_aligned(
                    digits(d.new_connections as nat),
                    5,
                ) + "  "@ + right_aligned(digits(d.hallucinations as nat), 5)
            }
            &&& has_part(p.title[0].text, digits(dreams.len()))
        }),
{
    law_part_of_a_sum(" Recent Dreams \u{b7} "@, digits(dreams.len()), " "@);
}

/// The local dream is shown with its mode; while it runs, with the seconds
/// since it began; once it is done, with the time that it took and its summary
/// on one line; where it failed, with the reason. Both are shortened.
pub proof fn law_local_dream_is_shown(
    mode: Seq<char>,
    started: u64,
    took: u64,
    text: Seq<char>,
    took_secs: Seq<char>,
    now: u64,
)
    requires
        started <= now,
    ensures
        ({
            let r = run_panel(DreamRunView::Running { mode, started }, took_secs, now);
            &&& r.border == Color::Warning
            &&& r.lines[0][1].text == mode
            &&& r.lines[0][2].text == "    elapsed: "@ + digits(
                ((now - started) / 1_000_000_000) as nat,
            ) + "s"@
        }),
        ({
            let d = run_panel(DreamRunView::Done { mode, took, summary: text }, took_secs, now);
            &&& d.border == Color::Success
            &&& d.lines[0][1].text == mode
            &&& has_part(d.lines[0][2].text, took_secs)
            &&& d.lines[1][0].text == "  "@ + shortened(on_one_line(text), 200)
        }),
        ({
            let f = run_panel(DreamRunView::Failed { mode, error: text }, took_secs, now);
            &&& f.border == Color::Error
            &&& f.lines[0][1].text == mode
            &&& f.lines[1][0].text == "  "@ + shortened(text, 200)
        }),
        run_panel(DreamRunView::Idle, took_secs, now).border == Color::Dim,
{
    law_part_of_a_sum("    took: "@, took_secs, "s"@);
}

// ---------------------------------------------------------------------------
// The whole screen
// ---------------------------------------------------------------------------

/// The screen shows the open tab and no other, the overlay exactly while it is
/// open, and the name and the text of the bar wherever one is.
pub proof fn law_screen_shows_the_open_tab(
    screen: Screen,
    app: &App,
    given: &Given,
    height: u16,
    second_height: u16,
    now: u64,
)
    requires
        screen_shows(screen, app, given, height, second_height, now),
    ensures
        screen.body is Memory <==> app@.active_tab == 0,
        screen.body is Status <==> app@.active_tab == 1,
        screen.body is Bus <==> app@.active_tab == 2,
        screen.body is Constellation <==> app@.active_tab == 3,
        screen.body is Dreams <==> app@.active_tab == 4,
        screen.body is Chat <==> app@.active_tab == 5,
        screen.help is Some <==> app@.show_help,
        screen.tabs@.selected == app@.active_tab,
        screen.header@.lines[0][2].text == app@.agent_name,
        screen.input@.lines[0][1].text == app@.bar.text,
        screen.body matches Body::Chat(p) ==> p@ == chat_panel(app@),
        screen.body matches Body::Bus(p) ==> p@ == bus_panel(app@.live, given.offsets@, height),
        screen.body matches Body::Memory(t) ==> t.log@ == log_panel(app@, height),
        screen.body matches Body::Memory(t) ==> t.memories@ == memories_panel(
            app@,
            given.amplitudes@,
            second_height,
        ),
        screen.body matches Body::Dreams(t) ==> t.history@ == history_panel(
            app@.live.dreams,
            given.dreams@,
            second_height,
        ),
        screen.body matches Body::Dreams(t) ==> t.run@ == run_panel(
            app@.dreamer.run,
            given.took_secs@,
            now,
        ),
{
}

/// What the model of the dashboard says of its lists is what it holds, item by
/// item and character by character.
pub proof fn law_model_holds_everything(app: &App, i: int)
    ensures
        app@.messages.len() == app.messages@.len(),
        0 <= i < app.messages@.len() ==> app@.messages[i].role == app.messages@[i].role
            && app@.messages[i].content == app.messages@[i].content@,
        app@.memories.len() == app.memories@.len(),
        0 <= i < app.memories@.len() ==> app@.memories[i].content == app.memories@[i].content@
            && app@.memories[i].amplitude == app.memories@[i].amplitude,
        app@.chat.lines.len() == app.chat.lines@.len(),
        0 <= i < app.chat.lines@.len() ==> app@.chat.lines[i].who == app.chat.lines@[i].who
            && app@.chat.lines[i].text == app.chat.lines@[i].text@,
        app@.live.lines.len() == app.live.lines@.len(),
        0 <= i < app.live.lines@.len() ==> app@.live.lines[i].ts_ms == app.live.lines@[i].ts_ms
            && app@.live.lines[i].subject == app.live.lines@[i].subject@
            && app@.live.lines[i].summary == app.live.lines@[i].summary@,
        app@.live.dreams.len() == app.live.dreams@.len(),
        app@.bar.text == app.bar.text@ && app@.bar.cursor == app.bar.cursor,
        app@.bar.history.len() == app.bar.history@.len(),
        0 <= i < app.bar.history@.len() ==> app@.bar.history[i] == app.bar.history@[i]@,
        app@.agent_name == app.agent_name@ && app@.kannaka_bin == app.kannaka_bin@,
        app@.active_tab == app.active_tab && app@.scroll_offset == app.scroll_offset,
        app@.status_pending == app.status_pending && app@.observe_pending == app.observe_pending,
        app.status matches Some(s) ==> app@.status is Some && app@.status->0.phi == s.phi
            && app@.status->0.links == s.links && app@.status->0.level == s.level@,
        app.status is None ==> app@.status is None,
{
}

/// The two halves of a tab share its width as the tab wants it: the first has
/// its hundredths to the nearest column, the second the rest.
pub proof fn law_tabs_share_their_width(r: Seq<Area>, area: Area, tab: usize)
    requires
        tab == 0 || tab == 1 || tab == 3,
        tab_parts(tab) is Some,
        laid_out(r, area, (tab_parts(tab)->0).0, (tab_parts(tab)->0).1),
        area.x + area.width <= u16::MAX,
    ensures
        r.len() == 2,
        r[0].x == area.x,
        r[0].width == ((if tab == 0 {
            60int
        } else if tab == 1 {
            55
        } else {
            65
        }) * area.width + 50) / 100,
        r[1].x == area.x + r[0].width,
        r[1].x + r[1].width == area.x + area.width,
{
    let (axis, parts) = tab_parts(tab)->0;
    if tab == 0 {
        law_two_shares_divide(r, area, axis, 60, 40);
    } else if tab == 1 {
        law_two_shares_divide(r, area, axis, 55, 45);
    } else {
        law_two_shares_divide(r, area, axis, 65, 35);
    }
}

/// While no agent has reported, the tab says how the stream stands, each way
/// in its own words.
pub proof fn law_waiting_tells_the_stream(x: BusStatus, y: BusStatus)
    requires
        x != y,
    ensures
        waiting_panel(x).lines[3] != waiting_panel(y).lines[3],
{
    reveal_strlit("  Waiting for the bus to start\u{2026}");
    reveal_strlit("  Connecting to the swarm\u{2026}");
    reveal_strlit("  Streaming \u{2014} no agents have reported phase yet");
    reveal_strlit("  Bus failed \u{2014} see logs");
    let text = |s: BusStatus| waiting_panel(s).lines[3][0].text;
    assert(text(BusStatus::Off)[2] == 'W');
    assert(text(BusStatus::Connecting)[2] == 'C');
    assert(text(BusStatus::Streaming)[2] == 'S');
    assert(text(BusStatus::Failed)[2] == 'B');
    assert(text(x)[2] != text(y)[2]);
}

/// Four subjects of the medium have a colour of their own, errors of the
/// dashboard look like errors, and a subject of no family is plain text.
pub proof fn law_single_subjects(subject: Seq<char>)
    ensures
        subject_color("KANNAKA.memory.new"@) == Color::Success,
        subject_color("KANNAKA.substrate.phi"@) == Color::Info,
        subject_color("KANNAKA.dreams"@) == Color::Warning,
        subject_color("KANNAKA.consciousness"@) == Color::Accent,
        subject_color("tui.error"@) == Color::Error,
        subject.len() > 0 && subject[0] != 'Q' && subject[0] != 'K' && subject[0] != 'R'
            && subject[0] != 'E' && subject != "tui.error"@ ==> subject_color(subject)
            == Color::Text,
{
    reveal_strlit("QUEEN.phase.");
    reveal_strlit("QUEEN.");
    reveal_strlit("KANNAKA.");
    reveal_strlit("KANNAKA.consciousness");
    reveal_strlit("KANNAKA.memory.new");
    reveal_strlit("KANNAKA.substrate.phi");
    reveal_strlit("KANNAKA.dreams");
    reveal_strlit("RADIO.");
    reveal_strlit("KAX.");
    reveal_strlit("EYE.");
    reveal_strlit("tui.error");
    assert forall|s: Seq<char>, p: Seq<char>| p.len() > 0 && s.len() > 0 && s[0] != p[0]
        implies !(#[trigger] has_prefix(s, p)) by {
        if has_prefix(s, p) {
            assert(s.subrange(0, p.len() as int)[0] == s[0]);
        }
    }
    assert("KANNAKA.memory.new"@[8] == 'm');
    assert("KANNAKA.substrate.phi"@[8] == 's');
    assert("KANNAKA.dreams"@[8] == 'd');
    assert("KANNAKA.consciousness"@[8] == 'c');
    if subject.len() > 0 {
        assert("KANNAKA.memory.new"@[0] == 'K');
        assert("KANNAKA.substrate.phi"@[0] == 'K');
        assert("KANNAKA.dreams"@[0] == 'K');
        assert("KANNAKA.consciousness"@[0] == 'K');
    }
}

/// A style has the colours that it is made with, and is bold or underlined
/// where its name says so.
pub proof fn law_styles_are_what_they_say(color: Color, ground: Color)
    ensures
        Style::plain().fg is None && Style::plain().bg is None && !Style::plain().bold,
        Style::fg(color).fg == Some(color) && Style::fg(color).bg is None && !Style::fg(color).bold
            && !Style::fg(color).underlined,
        Style::bold(color).fg == Some(color) && Style::bold(color).bg is None && Style::bold(
            color,
        ).bold && !Style::bold(color).underlined,
        Style::marked(color).fg == Some(color) && Style::marked(color).bold && Style::marked(
            color,
        ).underlined,
        Style::badge(color, ground).fg == Some(color) && Style::badge(color, ground).bg == Some(
            ground,
        ) && Style::badge(color, ground).bold,
        Style::on(color, ground).fg == Some(color) && Style::on(color, ground).bg == Some(ground)
            && !Style::on(color, ground).bold,
{
}

/// A panel has the title, the border, the lines and the flow that it is made
/// with, on the common ground, and no footer.
pub proof fn law_panels_are_what_they_are_made_of(
    title: Seq<SpanView>,
    border: Color,
    lines: Seq<Seq<SpanView>>,
    flow: Flow,
    text: Seq<char>,
)
    ensures
        ({
            let p = framed(title, border, lines, flow);
            &&& p.title == title && p.border == border && p.lines == lines && p.flow == flow
            &&& p.footer.len() == 0 && p.ground == Color::Background && p.base == Style::plain()
        }),
        line_text(heading(text)) == text,
        line_text(single_line(text, Style::plain())) == text,
{
    lemma_one_piece(heading(text)[0]);
    lemma_one_piece(single_line(text, Style::plain())[0]);
    assert(heading(text) =~= seq![heading(text)[0]]);
    assert(single_line(text, Style::plain()) =~= seq![single_line(text, Style::plain())[0]]);
}

/// The title of the chat tab tells whether an answer is awaited, and a line
/// with the spinner stands last while one is.
pub proof fn law_chat_tab_tells_the_waiting(a: AppView, b: AppView)
    requires
        a.chat.pending == Pending::Idle,
        b.chat.pending != Pending::Idle,
    ensures
        line_text(chat_panel(a).title) != line_text(chat_panel(b).title),
        chat_panel(b).lines.last()[0].text.contains(spinner(b.chat.tick)),
{
    lemma_one_piece(chat_panel(a).title[0]);
    lemma_one_piece(chat_panel(b).title[0]);
    assert(chat_panel(a).title =~= seq![chat_panel(a).title[0]]);
    assert(chat_panel(b).title =~= seq![chat_panel(b).title[0]]);
    reveal_strlit(" Chat ");
    reveal_strlit(" Chat \u{b7} thinking\u{2026} ");
    assert(" Chat "@.len() != " Chat \u{b7} thinking\u{2026} "@.len());
    let text = "kannaka "@ + seq![spinner(b.chat.tick)] + " "@;
    assert(text["kannaka "@.len() as int] == spinner(b.chat.tick));
    assert(chat_panel(b).lines.last()[0].text == text);
}

} // verus!

//! What holds of reading documents: every entry comes through as it was
//! written, under its own name.

use crate::bus::{
    agent_of, bit, dream_of, fixed3_of, flat_text, frame_of, quoted_content, summary_bits,
    summary_of, update_in_line, update_of, FrameView,
};
use crate::chat::{after_events, agent_spoke_last, said, ChatEventView, ChatView, ChatWho, Pending};
use crate::config::{name_in, TomlTree};
use crate::json::{compact_json, lookup, parsed_json, Json, JsonTree, PayloadView};
use crate::laws::{chunks, law_streamed_answer_is_one_line, run_together, turn_end};
use crate::reply::{
    ask_answer, chat_reply_of, dream_answer, links_of, observe_answer, status_answer, status_body,
    status_fields, strongest_of, OutcomeView,
};
use crate::text::{
    has_part, has_prefix, joined, law_joined_in_parts, law_part_of_a_sum,
    law_trimming_leaves_the_core, on_one_line, shortened, signed_digits, trimmed, Edge,
};
use vstd::prelude::*;

verus! {

// ---------------------------------------------------------------------------
// Entries
// ---------------------------------------------------------------------------

/// Of the entries with a name the first counts.
pub proof fn law_first_entry_counts<T>(fields: Seq<(Seq<char>, T)>, key: Seq<char>, i: int)
    requires
        0 <= i < fields.len(),
        fields[i].0 == key,
        forall|j: int| 0 <= j < i ==> (#[trigger] fields[j]).0 != key,
    ensures
        lookup(fields, key) == Some(fields[i].1),
    decreases i,
{
    if i > 0 {
        let rest = fields.subrange(1, fields.len() as int);
        assert(fields[0].0 != key);
        assert(forall|j: int| 0 <= j < rest.len() ==> rest[j] == fields[j + 1]);
        law_first_entry_counts(rest, key, i - 1);
    }
}

/// A name that no entry has leads to none.
pub proof fn law_unknown_name_finds_nothing<T>(fields: Seq<(Seq<char>, T)>, key: Seq<char>)
    requires
        forall|j: int| 0 <= j < fields.len() ==> (#[trigger] fields[j]).0 != key,
    ensures
        lookup(fields, key) is None,
    decreases fields.len(),
{
    if fields.len() > 0 {
        let rest = fields.subrange(1, fields.len() as int);
        assert(fields[0].0 != key);
        assert(forall|j: int| 0 <= j < rest.len() ==> rest[j] == fields[j + 1]);
        law_unknown_name_finds_nothing(rest, key);
    }
}

/// An entry of an object is read as it is: a text character for character, a
/// number by its value, true as true; what is of another kind does not count.
pub proof fn law_entry_is_read_as_it_is(
    fields: Seq<(Seq<char>, JsonTree)>,
    key: Seq<char>,
    other: Seq<char>,
    i: int,
)
    requires
        0 <= i < fields.len(),
        fields[i].0 == key,
        forall|j: int| 0 <= j < i ==> (#[trigger] fields[j]).0 != key,
    ensures
        ({
            let tree = JsonTree::Object(fields);
            let entry = fields[i].1;
            &&& tree.field(key) == Some(entry)
            &&& tree.field_or_null(key) == entry
            &&& tree.is_true(key) <==> entry == JsonTree::Bool(true)
            &&& match entry {
                JsonTree::Text(t) => tree.text(key) == Some(t) && tree.text_or(key, other) == t,
                _ => tree.text(key) is None && tree.text_or(key, other) == other,
            }
            &&& match entry {
                JsonTree::Number(n) => {
                    &&& tree.number(key) == Some(n)
                    &&& tree.double_or_zero(key) == n.double
                    &&& n.unsigned matches Some(u) ==> tree.unsigned_or_zero(key) == u
                    &&& n.unsigned is None ==> tree.unsigned_or_zero(key) == 0
                    &&& n.signed matches Some(v) ==> tree.signed_or_zero(key) == v
                    &&& n.signed is None ==> tree.signed_or_zero(key) == 0
                },
                _ => {
                    &&& tree.number(key) is None
                    &&& tree.double_or_zero(key) == 0
                    &&& tree.unsigned_or_zero(key) == 0
                    &&& tree.signed_or_zero(key) == 0
                },
            }
        }),
{
    law_first_entry_counts(fields, key, i);
}

/// Where there is no entry with a name, or no object at all, the reading is
/// what stands for nothing.
pub proof fn law_missing_entry_reads_as_nothing(
    tree: JsonTree,
    key: Seq<char>,
    other: Seq<char>,
)
    requires
        tree matches JsonTree::Object(fields) ==> forall|j: int|
            0 <= j < fields.len() ==> (#[trigger] fields[j]).0 != key,
    ensures
        tree.field(key) is None,
        tree.field_or_null(key) is Null,
        tree.text(key) is None,
        tree.text_or(key, other) == other,
        tree.number(key) is None,
        tree.double_or_zero(key) == 0,
        tree.unsigned_or_zero(key) == 0,
        tree.signed_or_zero(key) == 0,
        !tree.is_true(key),
{
    if let JsonTree::Object(fields) = tree {
        law_unknown_name_finds_nothing(fields, key);
    }
}

/// A value holds in its tree what it holds itself: texts character for
/// character, items and entries one for one and in their order.
pub proof fn law_tree_holds_the_value(j: Json)
    ensures
        match j {
            Json::Null => j.tree() is Null,
            Json::Bool(b) => j.tree() == JsonTree::Bool(b),
            Json::Number(n) => j.tree() matches JsonTree::Number(t) && t.unsigned == n.unsigned
                && t.signed == n.signed && t.double == n.double && t.fixed2 == n.fixed2@ && t.fixed3
                == n.fixed3@,
            Json::Text(t) => j.tree() == JsonTree::Text(t@),
            Json::Array(items) => j.tree() matches JsonTree::Array(held) && held.len()
                == items@.len() && forall|i: int|
                0 <= i < held.len() ==> #[trigger] held[i] == items@[i].tree(),
            Json::Object(fields) => j.tree() matches JsonTree::Object(held) && held.len()
                == fields@.len() && forall|i: int|
                0 <= i < held.len() ==> (#[trigger] held[i]).0 == fields@[i].0@ && held[i].1
                    == fields@[i].1.tree(),
        },
{
}

// ---------------------------------------------------------------------------
// The chat child
// ---------------------------------------------------------------------------

/// A response carries the text and the kind of its document character for
/// character, white space included; without a kind it is a chat response, and
/// without a text it is empty.
pub proof fn law_response_is_verbatim(tree: JsonTree)
    ensures
        tree.text("text"@) matches Some(t) ==> chat_reply_of(tree).text == t,
        tree.text("text"@) is None ==> chat_reply_of(tree).text.len() == 0,
        tree.text("kind"@) matches Some(k) ==> chat_reply_of(tree).kind == k,
        tree.text("kind"@) is None ==> chat_reply_of(tree).kind == "chat"@,
{
    reveal_strlit("");
}

/// The events that a series of documents of the chat child stands for.
pub open spec fn responses(docs: Seq<JsonTree>) -> Seq<ChatEventView> {
    docs.map_values(|d: JsonTree| ChatEventView::Response(chat_reply_of(d)))
}

/// The answer that the chat child streams is shown as one line of the agent,
/// which is the texts of its chunks one behind the other as the child wrote
/// them, and the turn is over.
pub proof fn law_conversation_shows_what_the_child_wrote(
    c: ChatView,
    docs: Seq<JsonTree>,
    end: JsonTree,
    texts: Seq<Seq<char>>,
)
    requires
        !agent_spoke_last(c),
        docs.len() == texts.len(),
        texts.len() > 0,
        forall|i: int|
            0 <= i < docs.len() ==> (#[trigger] docs[i]).text("kind"@) == Some("chunk"@)
                && docs[i].text("text"@) == Some(texts[i]),
        end.text("kind"@) == Some("chat"@),
    ensures
        ({
            let d = after_events(c, responses(docs.push(end)), false);
            &&& d.lines.len() == c.lines.len() + 1
            &&& d.lines.drop_last() == c.lines
            &&& d.lines.last().who == ChatWho::Kannaka
            &&& d.lines.last().text == run_together(texts)
            &&& d.pending == Pending::Idle
        }),
{
    let events = responses(docs.push(end));
    let whole = chat_reply_of(end).text;
    assert(events =~= chunks(texts).push(turn_end(whole)));
    law_streamed_answer_is_one_line(c, texts, whole);
    assert(said(c, ChatWho::Kannaka, run_together(texts)).lines.drop_last() =~= c.lines);
}

// ---------------------------------------------------------------------------
// Status and observation
// ---------------------------------------------------------------------------

/// Each reading of a status is the entry of its own name; what is missing is
/// zero, and the level unknown. The links are counted by an observation only.
pub proof fn law_status_reads_each_entry(body: JsonTree)
    ensures
        ({
            let s = status_fields(body);
            &&& body.number("phi"@) matches Some(n) ==> s.phi == n.double
            &&& body.number("phi"@) is None ==> s.phi == 0
            &&& body.number("xi"@) matches Some(n) ==> s.xi == n.double
            &&& body.number("xi"@) is None ==> s.xi == 0
            &&& body.number("mean_order"@) matches Some(n) ==> s.order == n.double
            &&& body.number("mean_order"@) is None ==> s.order == 0
            &&& body.number("total_memories"@) matches Some(n) ==> (
            n.unsigned matches Some(u) ==> s.memories == u)
            &&& body.number("total_memories"@) is None ==> s.memories == 0
            &&& body.number("num_clusters"@) matches Some(n) ==> (
            n.unsigned matches Some(u) ==> s.clusters == u)
            &&& body.number("num_clusters"@) is None ==> s.clusters == 0
            &&& body.number("active_memories"@) matches Some(n) ==> (
            n.unsigned matches Some(u) ==> s.active == u)
            &&& body.number("active_memories"@) is None ==> s.active == 0
            &&& body.text("consciousness_level"@) matches Some(t) ==> s.level == t
            &&& body.text("consciousness_level"@) is None ==> s.level == "Unknown"@
            &&& s.links == 0
        }),
{
}

/// An envelope makes no difference: a status is read alike with and without
/// one. A document that lacks one of the two marks of an envelope is none.
pub proof fn law_envelope_makes_no_difference(outer: JsonTree, inner: JsonTree)
    ensures
        outer.field("schema_version"@) is Some && outer.field("data"@) == Some(inner)
            ==> status_fields(status_body(outer)) == status_fields(inner),
        outer.field("schema_version"@) is None || outer.field("data"@) is None ==> status_fields(
            status_body(outer),
        ) == status_fields(outer),
{
}

/// A status run answers with a status if and only if it succeeds and writes a
/// document; else the answer says what went wrong.
pub proof fn law_status_run(outcome: OutcomeView, bin: Seq<char>)
    ensures
        ({
            let r = status_answer(outcome, bin);
            match outcome {
                OutcomeView::Success(stdout) => match parsed_json(stdout) {
                    Ok(tree) => r == Ok::<_, Seq<char>>(status_fields(status_body(tree))),
                    Err(e) => r matches Err(t) && has_part(t, e),
                },
                OutcomeView::Failure { code, stderr } => r matches Err(t) && has_part(
                    t,
                    trimmed(Edge::White, stderr),
                ),
                OutcomeView::NotRun(e) => r matches Err(t) && has_part(t, bin) && has_part(t, e),
            }
        }),
{
    match outcome {
        OutcomeView::Success(stdout) => if let Err(e) = parsed_json(stdout) {
            law_part_of_a_sum("status parse: "@, e, seq![]);
            assert("status parse: "@ + e + seq![] =~= "status parse: "@ + e);
        },
        OutcomeView::Failure { code, stderr } => {
            let e = trimmed(Edge::White, stderr);
            law_part_of_a_sum("status failed: "@, e, seq![]);
            assert("status failed: "@ + e + seq![] =~= "status failed: "@ + e);
        },
        OutcomeView::NotRun(e) => {
            let head = "status spawn failed at '"@;
            law_part_of_a_sum(head, bin, "': "@ + e);
            assert(head + bin + ("': "@ + e) =~= head + bin + "': "@ + e);
            law_part_of_a_sum(head + bin + "': "@, e, seq![]);
            assert(head + bin + "': "@ + e + seq![] =~= head + bin + "': "@ + e);
        },
    }
}

/// An observation gives a memory for each item of its list and in its order,
/// with the content and the amplitude of that item as they are.
pub proof fn law_observation_lists_every_memory(
    tree: JsonTree,
    waves: JsonTree,
    items: Seq<JsonTree>,
)
    requires
        tree.field("waves"@) == Some(waves),
        waves.field("strongest"@) == Some(JsonTree::Array(items)),
    ensures
        strongest_of(tree).len() == items.len(),
        forall|i: int|
            #![trigger strongest_of(tree)[i]]
            0 <= i < items.len() ==> {
                let m = strongest_of(tree)[i];
                &&& items[i].text("content_preview"@) matches Some(t) ==> m.content == t
                &&& items[i].text("content_preview"@) is None ==> m.content.len() == 0
                &&& items[i].number("amplitude"@) matches Some(n) ==> m.amplitude == n.double
                &&& items[i].number("amplitude"@) is None ==> m.amplitude == 0
            },
{
    reveal_strlit("");
}

/// An observation without such a list gives no memory, and one without a
/// count of links none; a count is taken as it is.
pub proof fn law_observation_counts_links(tree: JsonTree)
    ensures
        !(tree.field_or_null("waves"@).field_or_null("strongest"@) is Array)
            ==> strongest_of(tree).len() == 0,
        tree.field("topology"@) matches Some(t) ==> t.number("total_links"@) matches Some(n) ==> (
        n.unsigned matches Some(u) ==> links_of(tree) == u),
        tree.field("topology"@) is None ==> links_of(tree) == 0,
{
}

/// An observation run answers with links and memories if and only if it
/// succeeds and writes a document; else the answer says what went wrong.
pub proof fn law_observation_run(outcome: OutcomeView)
    ensures
        ({
            let r = observe_answer(outcome);
            match outcome {
                OutcomeView::Success(stdout) => match parsed_json(stdout) {
                    Ok(tree) => r == Ok::<_, Seq<char>>((links_of(tree), strongest_of(tree))),
                    Err(e) => r matches Err(t) && has_part(t, e),
                },
                OutcomeView::Failure { code, stderr } => r is Err,
                OutcomeView::NotRun(e) => r matches Err(t) && has_part(t, e),
            }
        }),
{
    match outcome {
        OutcomeView::Success(stdout) => if let Err(e) = parsed_json(stdout) {
            law_part_of_a_sum("observe parse: "@, e, seq![]);
            assert("observe parse: "@ + e + seq![] =~= "observe parse: "@ + e);
        },
        OutcomeView::Failure { code, stderr } => {},
        OutcomeView::NotRun(e) => {
            law_part_of_a_sum("observe spawn failed: "@, e, seq![]);
            assert("observe spawn failed: "@ + e + seq![] =~= "observe spawn failed: "@ + e);
        },
    }
}

/// A dream and a one-shot question answer with all that was written, but for
/// the white space around it; a failure is answered with the complaint, and
/// that of a question with the exit code too.
pub proof fn law_answers_are_whole(
    before: Seq<char>,
    core: Seq<char>,
    behind: Seq<char>,
    code: Option<i32>,
)
    requires
        forall|i: int| 0 <= i < before.len() ==> Edge::White.strips(#[trigger] before[i]),
        forall|i: int| 0 <= i < behind.len() ==> Edge::White.strips(#[trigger] behind[i]),
        core.len() > 0 ==> !Edge::White.strips(core[0]) && !Edge::White.strips(core.last()),
    ensures
        ({
            let t = before + core + behind;
            let failed = OutcomeView::Failure { code, stderr: t };
            let number = signed_digits(
                match code {
                    Some(c) => c as int,
                    None => -1,
                },
            );
            &&& dream_answer(OutcomeView::Success(t)) == Ok::<_, Seq<char>>(core)
            &&& ask_answer(OutcomeView::Success(t)) == Ok::<_, Seq<char>>(core)
            &&& dream_answer(failed) == Err::<Seq<char>, _>(core)
            &&& ask_answer(failed) matches Err(e) && has_part(e, core) && has_part(e, number)
            &&& dream_answer(OutcomeView::NotRun(t)) matches Err(e) && has_part(e, t)
            &&& ask_answer(OutcomeView::NotRun(t)) matches Err(e) && has_part(e, t)
        }),
{
    let t = before + core + behind;
    law_trimming_leaves_the_core(Edge::White, before, core, behind);
    let number = signed_digits(
        match code {
            Some(c) => c as int,
            None => -1,
        },
    );
    let head = "agent exited "@;
    law_part_of_a_sum(head, number, ": "@ + core);
    assert(head + number + (": "@ + core) =~= head + number + ": "@ + core);
    law_part_of_a_sum(head + number + ": "@, core, seq![]);
    assert(head + number + ": "@ + core + seq![] =~= head + number + ": "@ + core);
    law_part_of_a_sum("spawn failed: "@, t, seq![]);
    assert("spawn failed: "@ + t + seq![] =~= "spawn failed: "@ + t);
}

// ---------------------------------------------------------------------------
// The bus
// ---------------------------------------------------------------------------

/// Each reading of a dream report is the entry of its own name, and its time
/// that of the frame; only an object is a report.
pub proof fn law_dream_report_reads_each_entry(ts_ms: i64, payload: JsonTree)
    ensures
        dream_of(ts_ms, payload) is Some <==> payload is Object,
        dream_of(ts_ms, payload) matches Some(d) ==> {
            &&& d.ts_ms == ts_ms
            &&& payload.text("agent_id"@) matches Some(t) ==> d.agent_id == t
            &&& payload.text("agent_id"@) is None ==> d.agent_id == "?"@
            &&& payload.number("cycles"@) matches Some(n) ==> (
            n.unsigned matches Some(u) ==> d.cycles == u)
            &&& payload.number("memories_strengthened"@) matches Some(n) ==> (
            n.unsigned matches Some(u) ==> d.strengthened == u)
            &&& payload.number("memories_pruned"@) matches Some(n) ==> (
            n.unsigned matches Some(u) ==> d.pruned == u)
            &&& payload.number("new_connections"@) matches Some(n) ==> (
            n.unsigned matches Some(u) ==> d.new_connections == u)
            &&& payload.number("hallucinations_created"@) matches Some(n) ==> (
            n.unsigned matches Some(u) ==> d.hallucinations == u)
            &&& payload.number("consciousness_before"@) matches Some(n)
                ==> d.consciousness_before == n.double
            &&& payload.number("consciousness_after"@) matches Some(n)
                ==> d.consciousness_after == n.double
            &&& d.emerged <==> payload.field("emerged"@) == Some(JsonTree::Bool(true))
        },
{
}

/// What a dream report does not say is zero, and nothing has emerged.
pub proof fn law_dream_report_without_entries(ts_ms: i64, payload: JsonTree)
    requires
        payload == JsonTree::Object(seq![]),
    ensures
        dream_of(ts_ms, payload) matches Some(d) && d.cycles == 0 && d.strengthened == 0 && d.pruned
            == 0 && d.new_connections == 0 && d.hallucinations == 0 && d.consciousness_before == 0
            && d.consciousness_after == 0 && !d.emerged,
{
}

/// An agent report is one that names its agent. Each reading is the entry of
/// its own name; the phase angle may go by another name where its own is
/// missing; the report was seen now.
pub proof fn law_agent_report_reads_each_entry(payload: JsonTree, now: u64)
    ensures
        agent_of(payload, now) is Some <==> payload.text("agent_id"@) is Some,
        agent_of(payload, now) matches Some(a) ==> {
            &&& payload.text("agent_id"@) == Some(a.agent_id)
            &&& payload.number("theta"@) matches Some(n) ==> a.theta == n.double
            &&& payload.field("theta"@) is None ==> (payload.number("phase"@) matches Some(n)
                ==> a.theta == n.double)
            &&& payload.field("theta"@) is None && payload.number("phase"@) is None ==> a.theta == 0
            &&& payload.number("phi"@) matches Some(n) ==> a.phi == n.double
            &&& payload.number("phi"@) is None ==> a.phi == 0
            &&& payload.number("coherence"@) matches Some(n) ==> a.coherence == n.double
            &&& payload.number("coherence"@) is None ==> a.coherence == 0
            &&& payload.number("order_parameter"@) matches Some(n) ==> a.order_parameter == n.double
            &&& payload.number("order_parameter"@) is None ==> a.order_parameter == 0
            &&& payload.text("handedness"@) matches Some(t) ==> a.handedness == t
            &&& payload.text("handedness"@) is None ==> a.handedness == "achiral"@
            &&& payload.number("memory_count"@) matches Some(n) ==> (
            n.unsigned matches Some(u) ==> a.memory_count == u)
            &&& payload.number("memory_count"@) is None ==> a.memory_count == 0
            &&& a.last_seen == now
        },
{
}

/// A frame is read entry by entry: its time, its subject, and its payload with
/// the compact text of it.
pub proof fn law_frame_reads_each_entry(tree: JsonTree)
    ensures
        tree.number("ts"@) matches Some(n) ==> (
        n.signed matches Some(t) ==> frame_of(tree).ts_ms == t),
        tree.number("ts"@) is None ==> frame_of(tree).ts_ms == 0,
        tree.text("subject"@) matches Some(t) ==> frame_of(tree).subject == t,
        tree.text("subject"@) is None ==> frame_of(tree).subject == "?"@,
        tree.field("payload"@) matches Some(p) ==> frame_of(tree).payload == (PayloadView {
            tree: p,
            compact: compact_json(p),
        }),
        tree.field("payload"@) is None ==> frame_of(tree).payload.tree is Null,
{
}

/// A frame gives a row of its time and subject, whatever it is. It gives an
/// agent report if and only if it is a phase frame that names an agent, and a
/// dream report if and only if it is a dream frame with an object in it.
pub proof fn law_frames_go_where_they_belong(frame: FrameView, now: u64)
    ensures
        ({
            let u = update_of(frame, now);
            let payload = frame.payload.tree;
            &&& u.line.ts_ms == frame.ts_ms
            &&& u.line.subject == frame.subject
            &&& u.line.summary == summary_of(frame.subject, frame.payload)
            &&& u.agent is Some <==> has_prefix(frame.subject, "QUEEN.phase."@) && payload.text(
                "agent_id"@,
            ) is Some
            &&& u.agent is Some ==> u.agent == agent_of(payload, now)
            &&& u.dream is Some <==> frame.subject == "KANNAKA.dreams"@ && payload is Object
            &&& u.dream is Some ==> u.dream == dream_of(frame.ts_ms, payload)
        }),
{
}

/// A line of the stream brings something if and only if it is a document;
/// white space around it makes no difference.
pub proof fn law_bus_line_is_a_document(
    before: Seq<char>,
    core: Seq<char>,
    behind: Seq<char>,
    now: u64,
)
    requires
        forall|i: int| 0 <= i < before.len() ==> Edge::White.strips(#[trigger] before[i]),
        forall|i: int| 0 <= i < behind.len() ==> Edge::White.strips(#[trigger] behind[i]),
        core.len() > 0 ==> !Edge::White.strips(core[0]) && !Edge::White.strips(core.last()),
    ensures
        ({
            let r = update_in_line(before + core + behind, now);
            &&& core.len() == 0 || parsed_json(core) is Err ==> r is None
            &&& core.len() > 0 && parsed_json(core) is Ok ==> r == Some(
                update_of(frame_of(parsed_json(core)->Ok_0), now),
            )
        }),
{
    law_trimming_leaves_the_core(Edge::White, before, core, behind);
}

proof fn lemma_joined_has_part(parts: Seq<Seq<char>>, i: int)
    requires
        0 <= i < parts.len(),
    ensures
        has_part(joined(parts), parts[i]),
{
    let a = parts.subrange(0, i);
    let b = parts.subrange(i + 1, parts.len() as int);
    let one = seq![parts[i]];
    let p = parts[i];
    let dot = seq![' ', '\u{b7}', ' '];
    law_joined_in_parts(a, one + b, p);
    law_joined_in_parts(one, b, p);
    law_joined_in_parts(b, b, p);
    assert(parts =~= a + (one + b));
    let left = if i > 0 {
        joined(a) + dot
    } else {
        seq![]
    };
    let right = if b.len() > 0 {
        dot + joined(b)
    } else {
        seq![]
    };
    if b.len() == 0 {
        assert(one + b =~= one);
    }
    if i == 0 {
        assert(a + (one + b) =~= one + b);
    }
    assert(joined(parts) =~= left + p + right);
    law_part_of_a_sum(left, p, right);
}

proof fn lemma_bit_is_shown(payload: JsonTree, b: Seq<char>)
    requires
        summary_bits(payload).contains(b),
    ensures
        has_part(joined(summary_bits(payload)), b),
{
    let i = choose|i: int| 0 <= i < summary_bits(payload).len() && summary_bits(payload)[i] == b;
    lemma_joined_has_part(summary_bits(payload), i);
}

proof fn lemma_sum_contains<T>(a: Seq<T>, b: Seq<T>, x: T)
    ensures
        a.contains(x) || b.contains(x) ==> (a + b).contains(x),
{
    if a.contains(x) {
        let i = choose|i: int| 0 <= i < a.len() && a[i] == x;
        assert((a + b)[i] == x);
    } else if b.contains(x) {
        let i = choose|i: int| 0 <= i < b.len() && b[i] == x;
        assert((a + b)[a.len() + i] == x);
    }
}

proof fn lemma_known_reading_is_shown(p: JsonTree, label: Seq<char>, value: Option<Seq<char>>)
    requires
        value is Some,
        ({
            ||| label == "agent="@ && value == flat_text(p, "agent_id"@)
            ||| label == "\u{3b8}="@ && value == fixed3_of(p, "theta"@)
            ||| label == "\u{3a6}="@ && value == fixed3_of(p, "phi"@)
            ||| label == "\u{39e}="@ && value == fixed3_of(p, "xi"@)
            ||| label == "level="@ && value == flat_text(p, "consciousness_level"@)
            ||| label == "\""@ && value == quoted_content(p)
            ||| label == "event="@ && value == flat_text(p, "event"@)
        }),
    ensures
        summary_bits(p).len() > 0,
        has_part(joined(summary_bits(p)), label + value->0),
{
    let b1 = bit("agent="@, flat_text(p, "agent_id"@));
    let b2 = b1 + bit("\u{3b8}="@, fixed3_of(p, "theta"@));
    let b3 = b2 + bit("\u{3a6}="@, fixed3_of(p, "phi"@));
    let b4 = b3 + bit("\u{39e}="@, fixed3_of(p, "xi"@));
    let b5 = b4 + bit("level="@, flat_text(p, "consciousness_level"@));
    let b6 = b5 + bit("\""@, quoted_content(p));
    let x = label + value->0;
    assert(bit(label, value)[0] == x);
    assert(bit(label, value).contains(x));
    lemma_sum_contains(b1, bit("\u{3b8}="@, fixed3_of(p, "theta"@)), x);
    lemma_sum_contains(b2, bit("\u{3a6}="@, fixed3_of(p, "phi"@)), x);
    lemma_sum_contains(b3, bit("\u{39e}="@, fixed3_of(p, "xi"@)), x);
    lemma_sum_contains(b4, bit("level="@, flat_text(p, "consciousness_level"@)), x);
    lemma_sum_contains(b5, bit("\""@, quoted_content(p)), x);
    lemma_sum_contains(b6, bit("event="@, flat_text(p, "event"@)), x);
    assert(summary_bits(p).contains(x));
    lemma_bit_is_shown(p, x);
}

/// The summary of an object shows every reading of it that is known by name,
/// each under its label and on one line; the content is shortened.
pub proof fn law_summary_shows_every_reading(subject: Seq<char>, payload: PayloadView)
    requires
        payload.tree is Object,
    ensures
        ({
            let p = payload.tree;
            let s = summary_of(subject, payload);
            &&& p.text("agent_id"@) matches Some(t) ==> has_part(s, "agent="@ + on_one_line(t))
            &&& p.number("theta"@) matches Some(n) ==> has_part(
                s,
                "\u{3b8}="@ + on_one_line(n.fixed3),
            )
            &&& p.number("phi"@) matches Some(n) ==> has_part(
                s,
                "\u{3a6}="@ + on_one_line(n.fixed3),
            )
            &&& p.number("xi"@) matches Some(n) ==> has_part(
                s,
                "\u{39e}="@ + on_one_line(n.fixed3),
            )
            &&& p.text("consciousness_level"@) matches Some(t) ==> has_part(
                s,
                "level="@ + on_one_line(t),
            )
            &&& p.text("content"@) matches Some(t) ==> has_part(
                s,
                "\""@ + (shortened(on_one_line(t), 60) + "\""@),
            )
            &&& p.text("event"@) matches Some(t) ==> has_part(s, "event="@ + on_one_line(t))
        }),
{
    let p = payload.tree;
    if p.text("agent_id"@) is Some {
        lemma_known_reading_is_shown(p, "agent="@, flat_text(p, "agent_id"@));
    }
    if p.number("theta"@) is Some {
        lemma_known_reading_is_shown(p, "\u{3b8}="@, fixed3_of(p, "theta"@));
    }
    if p.number("phi"@) is Some {
        lemma_known_reading_is_shown(p, "\u{3a6}="@, fixed3_of(p, "phi"@));
    }
    if p.number("xi"@) is Some {
        lemma_known_reading_is_shown(p, "\u{39e}="@, fixed3_of(p, "xi"@));
    }
    if p.text("consciousness_level"@) is Some {
        lemma_known_reading_is_shown(p, "level="@, flat_text(p, "consciousness_level"@));
    }
    if p.text("content"@) is Some {
        lemma_known_reading_is_shown(p, "\""@, quoted_content(p));
    }
    if p.text("event"@) is Some {
        lemma_known_reading_is_shown(p, "event="@, flat_text(p, "event"@));
    }
}

/// The readings of a summary stand in a settled order, with a middle dot
/// between any two.
pub proof fn law_summary_has_an_order(
    subject: Seq<char>,
    payload: PayloadView,
    id: Seq<char>,
    event: Seq<char>,
)
    requires
        payload.tree is Object,
        payload.tree.text("agent_id"@) == Some(id),
        payload.tree.number("theta"@) is Some,
        payload.tree.number("phi"@) is Some,
        payload.tree.number("xi"@) is Some,
        payload.tree.text("event"@) == Some(event),
        payload.tree.text("consciousness_level"@) is None,
        payload.tree.text("content"@) is None,
    ensures
        ({
            let p = payload.tree;
            let dot = seq![' ', '\u{b7}', ' '];
            summary_of(subject, payload) == "agent="@ + on_one_line(id) + dot + ("\u{3b8}="@
                + on_one_line(p.number("theta"@)->0.fixed3)) + dot + ("\u{3a6}="@ + on_one_line(
                p.number("phi"@)->0.fixed3,
            )) + dot + ("\u{39e}="@ + on_one_line(p.number("xi"@)->0.fixed3)) + dot + ("event="@
                + on_one_line(event))
        }),
{
    let p = payload.tree;
    let a = "agent="@ + on_one_line(id);
    let b = "\u{3b8}="@ + on_one_line(p.number("theta"@)->0.fixed3);
    let c = "\u{3a6}="@ + on_one_line(p.number("phi"@)->0.fixed3);
    let d = "\u{39e}="@ + on_one_line(p.number("xi"@)->0.fixed3);
    let e = "event="@ + on_one_line(event);
    assert(summary_bits(p) =~= seq![a, b, c, d, e]);
    law_joined_in_parts(seq![a, b, c, d], seq![e], a);
    law_joined_in_parts(seq![a, b, c], seq![d], a);
    law_joined_in_parts(seq![a, b], seq![c], a);
    law_joined_in_parts(seq![a], seq![b], a);
    assert(seq![a, b, c, d] + seq![e] =~= seq![a, b, c, d, e]);
    assert(seq![a, b, c] + seq![d] =~= seq![a, b, c, d]);
    assert(seq![a, b] + seq![c] =~= seq![a, b, c]);
    assert(seq![a] + seq![b] =~= seq![a, b]);
}

/// A summary says no more than there is to say: an object with a single known
/// reading is summarised by that alone.
pub proof fn law_summary_adds_nothing(subject: Seq<char>, payload: PayloadView, id: Seq<char>)
    requires
        payload.tree is Object,
        payload.tree.text("agent_id"@) == Some(id),
        payload.tree.number("theta"@) is None,
        payload.tree.number("phi"@) is None,
        payload.tree.number("xi"@) is None,
        payload.tree.text("consciousness_level"@) is None,
        payload.tree.text("content"@) is None,
        payload.tree.text("event"@) is None,
    ensures
        summary_of(subject, payload) == "agent="@ + on_one_line(id),
{
    assert(summary_bits(payload.tree) =~= seq!["agent="@ + on_one_line(id)]);
}

/// A payload without a reading that is known by name is shown by its own
/// text: on one line, and as much of it as a row takes.
pub proof fn law_other_payloads_show_their_text(
    subject: Seq<char>,
    payload: PayloadView,
    text: Seq<char>,
)
    requires
        match payload.tree {
            JsonTree::Text(t) => t == text,
            JsonTree::Object(_) => payload.compact == Some(text),
            _ => payload.compact == Some(text),
        },
        payload.tree.text("agent_id"@) is None,
        payload.tree.number("theta"@) is None,
        payload.tree.number("phi"@) is None,
        payload.tree.number("xi"@) is None,
        payload.tree.text("consciousness_level"@) is None,
        payload.tree.text("content"@) is None,
        payload.tree.text("event"@) is None,
    ensures
        summary_of(subject, payload) == shortened(on_one_line(text), 120),
{
    if payload.tree is Object {
        assert(summary_bits(payload.tree) =~= seq![]);
    }
}

// ---------------------------------------------------------------------------
// The configuration
// ---------------------------------------------------------------------------

/// The agent goes by its display name; by its id where that is missing or
/// empty; and is unknown where both are missing, or where the document does
/// not speak of the agent.
pub proof fn law_agent_goes_by_its_name(document: TomlTree, agent: TomlTree)
    requires
        document.field("agent"@) == Some(agent),
    ensures
        agent.text("display_name"@) matches Some(n) ==> n.len() > 0 ==> name_in(document) == n,
        agent.text("display_name"@) is None || agent.text("display_name"@)->0.len() == 0
            ==> (agent.text("id"@) matches Some(i) ==> name_in(document) == i),
        (agent.text("display_name"@) is None || agent.text("display_name"@)->0.len() == 0)
            && agent.text("id"@) is None ==> name_in(document) == "unknown"@,
{
}

/// A document that does not speak of the agent names nobody, and a name is
/// read out of a table character for character.
pub proof fn law_tables_are_read_by_name(
    fields: Seq<(Seq<char>, TomlTree)>,
    key: Seq<char>,
    i: int,
)
    requires
        0 <= i < fields.len(),
        fields[i].0 == key,
        forall|j: int| 0 <= j < i ==> (#[trigger] fields[j]).0 != key,
    ensures
        TomlTree::Table(fields).field(key) == Some(fields[i].1),
        match fields[i].1 {
            TomlTree::Text(t) => TomlTree::Table(fields).text(key) == Some(t),
            _ => TomlTree::Table(fields).text(key) is None,
        },
        TomlTree::Table(fields).field("agent"@) is None ==> name_in(TomlTree::Table(fields))
            == "unknown"@,
{
    law_first_entry_counts(fields, key, i);
}

} // verus!

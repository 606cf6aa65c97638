//! Frames of the live bus: one JSON document per line.

use crate::json::{
    compact_json, parse_with_payload, parsed_json, Json, JsonTree, Payload, PayloadView,
};
use crate::style::Color;
use crate::text::{
    concat2, concat3, flatten_lines, has_prefix, join, joined, law_flattened_is_one_line,
    law_joined_is_one_line, law_shortened_stays_one_line, on_one_line, same_text, shortened,
    starts_with, texts, trim, trimmed, truncate, Edge,
};
use vstd::prelude::*;

verus! {

/// One row of the bus tab.
pub struct BusLine {
    pub ts_ms: i64,
    pub subject: String,
    pub summary: String,
}

/// The model of a [`BusLine`].
pub struct BusLineView {
    pub ts_ms: i64,
    pub subject: Seq<char>,
    pub summary: Seq<char>,
}

impl View for BusLine {
    type V = BusLineView;

    open spec fn view(&self) -> BusLineView {
        BusLineView { ts_ms: self.ts_ms, subject: self.subject@, summary: self.summary@ }
    }
}

/// The latest report of one agent. The readings are doubles, by their bits.
pub struct AgentSnapshot {
    pub agent_id: String,
    pub theta: u64,
    pub phi: u64,
    pub coherence: u64,
    pub order_parameter: u64,
    pub handedness: String,
    pub memory_count: u64,
    /// When the report came, in nanoseconds of the program's clock.
    pub last_seen: u64,
}

/// The model of an [`AgentSnapshot`].
pub struct AgentView {
    pub agent_id: Seq<char>,
    pub theta: u64,
    pub phi: u64,
    pub coherence: u64,
    pub order_parameter: u64,
    pub handedness: Seq<char>,
    pub memory_count: u64,
    pub last_seen: u64,
}

impl View for AgentSnapshot {
    type V = AgentView;

    open spec fn view(&self) -> AgentView {
        AgentView {
            agent_id: self.agent_id@,
            theta: self.theta,
            phi: self.phi,
            coherence: self.coherence,
            order_parameter: self.order_parameter,
            handedness: self.handedness@,
            memory_count: self.memory_count,
            last_seen: self.last_seen,
        }
    }
}

/// One dream report seen on the bus. The two consciousness readings are
/// doubles, by their bits.
pub struct DreamEvent {
    pub ts_ms: i64,
    pub agent_id: String,
    pub cycles: u64,
    pub strengthened: u64,
    pub pruned: u64,
    pub new_connections: u64,
    pub hallucinations: u64,
    pub consciousness_before: u64,
    pub consciousness_after: u64,
    pub emerged: bool,
}

/// The model of a [`DreamEvent`].
pub struct DreamView {
    pub ts_ms: i64,
    pub agent_id: Seq<char>,
    pub cycles: u64,
    pub strengthened: u64,
    pub pruned: u64,
    pub new_connections: u64,
    pub hallucinations: u64,
    pub consciousness_before: u64,
    pub consciousness_after: u64,
    pub emerged: bool,
}

impl View for DreamEvent {
    type V = DreamView;

    open spec fn view(&self) -> DreamView {
        DreamView {
            ts_ms: self.ts_ms,
            agent_id: self.agent_id@,
            cycles: self.cycles,
            strengthened: self.strengthened,
            pruned: self.pruned,
            new_connections: self.new_connections,
            hallucinations: self.hallucinations,
            consciousness_before: self.consciousness_before,
            consciousness_after: self.consciousness_after,
            emerged: self.emerged,
        }
    }
}

// ---------------------------------------------------------------------------
// Dream reports
// ---------------------------------------------------------------------------

/// The dream report in a payload; only an object is one.
pub open spec fn dream_of(ts_ms: i64, payload: JsonTree) -> Option<DreamView> {
    if payload is Object {
        Some(
            DreamView {
                ts_ms,
                agent_id: payload.text_or("agent_id"@, "?"@),
                cycles: payload.unsigned_or_zero("cycles"@),
                strengthened: payload.unsigned_or_zero("memories_strengthened"@),
                pruned: payload.unsigned_or_zero("memories_pruned"@),
                new_connections: payload.unsigned_or_zero("new_connections"@),
                hallucinations: payload.unsigned_or_zero("hallucinations_created"@),
                consciousness_before: payload.double_or_zero("consciousness_before"@),
                consciousness_after: payload.double_or_zero("consciousness_after"@),
                emerged: payload.is_true("emerged"@),
            },
        )
    } else {
        None
    }
}

/// Reads a dream report. Every field but the object itself may be missing.
pub fn dream_event_from_payload(ts_ms: i64, payload: &Json) -> (r: Option<DreamEvent>)
    ensures
        match r {
            Some(d) => dream_of(ts_ms, payload.tree()) == Some(d@),
            None => dream_of(ts_ms, payload.tree()) is None,
        },
{
    match payload {
        Json::Object(_) => Some(
            DreamEvent {
                ts_ms,
                agent_id: payload.text_or("agent_id", "?"),
                cycles: payload.unsigned_or_zero("cycles"),
                strengthened: payload.unsigned_or_zero("memories_strengthened"),
                pruned: payload.unsigned_or_zero("memories_pruned"),
                new_connections: payload.unsigned_or_zero("new_connections"),
                hallucinations: payload.unsigned_or_zero("hallucinations_created"),
                consciousness_before: payload.double_or_zero("consciousness_before"),
                consciousness_after: payload.double_or_zero("consciousness_after"),
                emerged: payload.is_true("emerged"),
            },
        ),
        _ => None,
    }
}

// ---------------------------------------------------------------------------
// Agent reports
// ---------------------------------------------------------------------------

/// The agent that a payload names.
pub open spec fn agent_id_of(payload: JsonTree) -> Option<Seq<char>> {
    payload.text("agent_id"@)
}

/// The phase angle: under `theta`, or under `phase` where `theta` is absent.
pub open spec fn theta_of(payload: JsonTree) -> u64 {
    if payload.field("theta"@) is Some {
        payload.double_or_zero("theta"@)
    } else {
        payload.double_or_zero("phase"@)
    }
}

/// The agent report in the payload of a phase frame, seen at a time.
pub open spec fn agent_of(payload: JsonTree, now: u64) -> Option<AgentView> {
    match agent_id_of(payload) {
        Some(agent_id) => Some(
            AgentView {
                agent_id,
                theta: theta_of(payload),
                phi: payload.double_or_zero("phi"@),
                coherence: payload.double_or_zero("coherence"@),
                order_parameter: payload.double_or_zero("order_parameter"@),
                handedness: payload.text_or("handedness"@, "achiral"@),
                memory_count: payload.unsigned_or_zero("memory_count"@),
                last_seen: now,
            },
        ),
        None => None,
    }
}

/// Reads an agent report. A payload that names no agent gives none, whatever
/// its subject; every other field may be missing.
pub fn agent_snapshot_from_payload(_subject: &str, payload: &Json, now: u64) -> (r: Option<
    AgentSnapshot,
>)
    ensures
        match r {
            Some(a) => agent_of(payload.tree(), now) == Some(a@),
            None => agent_of(payload.tree(), now) is None,
        },
{
    let agent_id = match payload.text("agent_id") {
        Some(id) => id,
        None => {
            return None;
        },
    };
    let theta: u64 = if payload.get("theta").is_some() {
        payload.double_or_zero("theta")
    } else {
        payload.double_or_zero("phase")
    };
    Some(
        AgentSnapshot {
            agent_id,
            theta,
            phi: payload.double_or_zero("phi"),
            coherence: payload.double_or_zero("coherence"),
            order_parameter: payload.double_or_zero("order_parameter"),
            handedness: payload.text_or("handedness", "achiral"),
            memory_count: payload.unsigned_or_zero("memory_count"),
            last_seen: now,
        },
    )
}

// ---------------------------------------------------------------------------
// One-line summaries
// ---------------------------------------------------------------------------

/// A labelled reading, where there is one.
pub open spec fn bit(label: Seq<char>, value: Option<Seq<char>>) -> Seq<Seq<char>> {
    match value {
        Some(v) => seq![label + v],
        None => seq![],
    }
}

/// A text, where there is one, on one line.
pub open spec fn flattened(text: Option<Seq<char>>) -> Option<Seq<char>> {
    match text {
        Some(t) => Some(on_one_line(t)),
        None => None,
    }
}

/// The text under a name, on one line.
pub open spec fn flat_text(payload: JsonTree, key: Seq<char>) -> Option<Seq<char>> {
    flattened(payload.text(key))
}

/// The number under a name, with three decimals.
pub open spec fn fixed3_of(payload: JsonTree, key: Seq<char>) -> Option<Seq<char>> {
    match payload.number(key) {
        Some(n) => Some(on_one_line(n.fixed3)),
        None => None,
    }
}

/// The content of a payload on one line, shortened and in quotation marks.
pub open spec fn quoted_content(payload: JsonTree) -> Option<Seq<char>> {
    match flat_text(payload, "content"@) {
        Some(t) => Some(shortened(t, 60) + "\""@),
        None => None,
    }
}

/// A text on one line, shortened to what a row shows of it.
pub open spec fn excerpt(text: Seq<char>) -> Seq<char> {
    shortened(on_one_line(text), 120)
}

/// The readings of a payload that a summary shows, in order.
pub open spec fn summary_bits(payload: JsonTree) -> Seq<Seq<char>> {
    bit("agent="@, flat_text(payload, "agent_id"@))
        + bit("\u{3b8}="@, fixed3_of(payload, "theta"@))
        + bit("\u{3a6}="@, fixed3_of(payload, "phi"@))
        + bit("\u{39e}="@, fixed3_of(payload, "xi"@))
        + bit("level="@, flat_text(payload, "consciousness_level"@))
        + bit("\""@, quoted_content(payload))
        + bit("event="@, flat_text(payload, "event"@))
}

/// The one-line summary of a payload: the readings known by name where it
/// has any, else the beginning of its text.
pub open spec fn summary_of(subject: Seq<char>, payload: PayloadView) -> Seq<char> {
    match payload.tree {
        JsonTree::Object(_) => if summary_bits(payload.tree).len() > 0 {
            joined(summary_bits(payload.tree))
        } else {
            match payload.compact {
                Some(t) => excerpt(t),
                None => seq![],
            }
        },
        JsonTree::Text(t) => excerpt(t),
        _ => match payload.compact {
            Some(t) => excerpt(t),
            None => excerpt("<unprintable "@ + subject + ">"@),
        },
    }
}

fn push_bit(bits: &mut Vec<String>, label: &str, value: Option<String>)
    ensures
        texts(final(bits)@) == texts(old(bits)@) + bit(
            label@,
            match value {
                Some(v) => Some(v@),
                None => None,
            },
        ),
{
    let ghost before = bits@;
    match value {
        Some(v) => {
            bits.push(concat2(label, v.as_str()));
            assert(texts(bits@) =~= texts(before) + seq![label@ + v@]);
        },
        None => {
            assert(texts(bits@) =~= texts(before) + seq![]);
        },
    }
}

fn fixed3(payload: &Json, key: &str) -> (r: Option<String>)
    ensures
        match r {
            Some(t) => fixed3_of(payload.tree(), key@) == Some(t@),
            None => fixed3_of(payload.tree(), key@) is None,
        },
{
    match payload.number(key) {
        Some(n) => Some(flatten_lines(n.fixed3.as_str())),
        None => None,
    }
}

fn flat(payload: &Json, key: &str) -> (r: Option<String>)
    ensures
        match r {
            Some(t) => flat_text(payload.tree(), key@) == Some(t@),
            None => flat_text(payload.tree(), key@) is None,
        },
{
    match payload.text(key) {
        Some(t) => Some(flatten_lines(t.as_str())),
        None => None,
    }
}

fn write_excerpt(text: &str) -> (r: String)
    ensures
        r@ == excerpt(text@),
{
    truncate(flatten_lines(text).as_str(), 120)
}

proof fn lemma_bit_is_one_line(label: Seq<char>, value: Option<Seq<char>>)
    requires
        !label.contains('\n'),
        value matches Some(v) ==> !v.contains('\n'),
    ensures
        forall|i: int|
            0 <= i < bit(label, value).len() ==> !(#[trigger] bit(label, value)[i]).contains('\n'),
{
    if let Some(v) = value {
        let r = label + v;
        assert forall|k: int| 0 <= k < r.len() implies #[trigger] r[k] != '\n' by {
            if k < label.len() {
                assert(r[k] == label[k]);
            } else {
                assert(r[k] == v[k - label.len()]);
            }
        }
        assert(!r.contains('\n'));
    }
}

proof fn lemma_flat_values(payload: JsonTree, key: Seq<char>)
    ensures
        flat_text(payload, key) matches Some(v) ==> !v.contains('\n'),
        fixed3_of(payload, key) matches Some(v) ==> !v.contains('\n'),
{
    if let Some(t) = payload.text(key) {
        law_flattened_is_one_line(t);
    }
    if let Some(n) = payload.number(key) {
        law_flattened_is_one_line(n.fixed3);
    }
}

proof fn lemma_quoted_content(payload: JsonTree)
    ensures
        quoted_content(payload) matches Some(v) ==> !v.contains('\n'),
{
    lemma_flat_values(payload, "content"@);
    if let Some(t) = flat_text(payload, "content"@) {
        law_shortened_stays_one_line(t, 60);
        reveal_strlit("\"");
        let s = shortened(t, 60);
        let r = s + "\""@;
        assert forall|k: int| 0 <= k < r.len() implies #[trigger] r[k] != '\n' by {
            if k < s.len() {
                assert(r[k] == s[k]);
            }
        }
    }
}

proof fn lemma_excerpt(text: Seq<char>)
    ensures
        !excerpt(text).contains('\n'),
{
    law_flattened_is_one_line(text);
    law_shortened_stays_one_line(on_one_line(text), 120);
}

proof fn lemma_bits_are_one_line(payload: JsonTree)
    ensures
        forall|i: int|
            0 <= i < summary_bits(payload).len() ==> !(#[trigger] summary_bits(
                payload,
            )[i]).contains('\n'),
{
    reveal_strlit("agent=");
    reveal_strlit("\u{3b8}=");
    reveal_strlit("\u{3a6}=");
    reveal_strlit("\u{39e}=");
    reveal_strlit("level=");
    reveal_strlit("\"");
    reveal_strlit("event=");
    lemma_flat_values(payload, "agent_id"@);
    lemma_flat_values(payload, "theta"@);
    lemma_flat_values(payload, "phi"@);
    lemma_flat_values(payload, "xi"@);
    lemma_flat_values(payload, "consciousness_level"@);
    lemma_quoted_content(payload);
    lemma_flat_values(payload, "event"@);
    lemma_bit_is_one_line("agent="@, flat_text(payload, "agent_id"@));
    lemma_bit_is_one_line("\u{3b8}="@, fixed3_of(payload, "theta"@));
    lemma_bit_is_one_line("\u{3a6}="@, fixed3_of(payload, "phi"@));
    lemma_bit_is_one_line("\u{39e}="@, fixed3_of(payload, "xi"@));
    lemma_bit_is_one_line("level="@, flat_text(payload, "consciousness_level"@));
    lemma_bit_is_one_line("\""@, quoted_content(payload));
    lemma_bit_is_one_line("event="@, flat_text(payload, "event"@));
}

/// A summary is one line, whatever the payload.
pub proof fn law_summary_is_one_line(subject: Seq<char>, payload: PayloadView)
    ensures
        !summary_of(subject, payload).contains('\n'),
{
    lemma_bits_are_one_line(payload.tree);
    law_joined_is_one_line(summary_bits(payload.tree));
    if let Some(t) = payload.compact {
        lemma_excerpt(t);
    }
    if let JsonTree::Text(t) = payload.tree {
        lemma_excerpt(t);
    }
    lemma_excerpt("<unprintable "@ + subject + ">"@);
}

/// Summarises a payload in one line.
pub fn summarize_payload(subject: &str, payload: &Payload) -> (r: String)
    ensures
        r@ == summary_of(subject@, payload@),
        !r@.contains('\n'),
{
    proof {
        law_summary_is_one_line(subject@, payload@);
    }
    match &payload.json {
        Json::Object(_) => {
            let json = &payload.json;
            let mut bits: Vec<String> = Vec::new();
            push_bit(&mut bits, "agent=", flat(json, "agent_id"));
            push_bit(&mut bits, "\u{3b8}=", fixed3(json, "theta"));
            push_bit(&mut bits, "\u{3a6}=", fixed3(json, "phi"));
            push_bit(&mut bits, "\u{39e}=", fixed3(json, "xi"));
            push_bit(&mut bits, "level=", flat(json, "consciousness_level"));
            let content = match flat(json, "content") {
                Some(t) => Some(concat2(truncate(t.as_str(), 60).as_str(), "\"")),
                None => None,
            };
            push_bit(&mut bits, "\"", content);
            push_bit(&mut bits, "event=", flat(json, "event"));
            assert(texts(bits@) =~= summary_bits(json.tree()));
            if bits.len() > 0 {
                return join(&bits);
            }
            match &payload.compact {
                Some(t) => write_excerpt(t.as_str()),
                None => {
                    let r = String::new();
                    assert(r@ =~= seq![]);
                    r
                },
            }
        },
        Json::Text(t) => write_excerpt(t.as_str()),
        _ => match &payload.compact {
            Some(t) => write_excerpt(t.as_str()),
            None => write_excerpt(concat3("<unprintable ", subject, ">").as_str()),
        },
    }
}

// ---------------------------------------------------------------------------
// Colours by subject
// ---------------------------------------------------------------------------

/// The colour of a subject.
pub open spec fn subject_color(subject: Seq<char>) -> Color {
    if has_prefix(subject, "QUEEN.phase."@) {
        Color::Dim
    } else if has_prefix(subject, "QUEEN."@) {
        Color::Rgb(180, 140, 255)
    } else if subject == "KANNAKA.consciousness"@ {
        Color::Accent
    } else if subject == "KANNAKA.memory.new"@ {
        Color::Success
    } else if subject == "KANNAKA.substrate.phi"@ {
        Color::Info
    } else if subject == "KANNAKA.dreams"@ {
        Color::Warning
    } else if has_prefix(subject, "KANNAKA."@) {
        Color::Accent
    } else if has_prefix(subject, "RADIO."@) {
        Color::Rgb(255, 100, 200)
    } else if has_prefix(subject, "KAX."@) {
        Color::Rgb(100, 200, 255)
    } else if has_prefix(subject, "EYE."@) {
        Color::Rgb(255, 200, 100)
    } else if subject == "tui.error"@ {
        Color::Error
    } else {
        Color::Text
    }
}

/// Colours a subject.
pub fn bus_subject_color(subject: &str) -> (r: Color)
    ensures
        r == subject_color(subject@),
{
    if starts_with(subject, "QUEEN.phase.") {
        return Color::Dim;
    }
    if starts_with(subject, "QUEEN.") {
        return Color::Rgb(180, 140, 255);
    }
    if same_text(subject, "KANNAKA.consciousness") {
        return Color::Accent;
    }
    if same_text(subject, "KANNAKA.memory.new") {
        return Color::Success;
    }
    if same_text(subject, "KANNAKA.substrate.phi") {
        return Color::Info;
    }
    if same_text(subject, "KANNAKA.dreams") {
        return Color::Warning;
    }
    if starts_with(subject, "KANNAKA.") {
        return Color::Accent;
    }
    if starts_with(subject, "RADIO.") {
        return Color::Rgb(255, 100, 200);
    }
    if starts_with(subject, "KAX.") {
        return Color::Rgb(100, 200, 255);
    }
    if starts_with(subject, "EYE.") {
        return Color::Rgb(255, 200, 100);
    }
    if same_text(subject, "tui.error") {
        return Color::Error;
    }
    Color::Text
}

// ---------------------------------------------------------------------------
// From a line of the stream to what the tabs show
// ---------------------------------------------------------------------------

/// A frame of the bus.
pub struct Frame {
    pub ts_ms: i64,
    pub subject: String,
    pub payload: Payload,
}

/// The model of a [`Frame`].
pub struct FrameView {
    pub ts_ms: i64,
    pub subject: Seq<char>,
    pub payload: PayloadView,
}

impl View for Frame {
    type V = FrameView;

    open spec fn view(&self) -> FrameView {
        FrameView { ts_ms: self.ts_ms, subject: self.subject@, payload: self.payload@ }
    }
}

/// What a frame brings to the tabs.
pub struct BusUpdate {
    pub line: BusLine,
    pub agent: Option<AgentSnapshot>,
    pub dream: Option<DreamEvent>,
}

/// The model of a [`BusUpdate`].
pub struct BusUpdateView {
    pub line: BusLineView,
    pub agent: Option<AgentView>,
    pub dream: Option<DreamView>,
}

impl View for BusUpdate {
    type V = BusUpdateView;

    open spec fn view(&self) -> BusUpdateView {
        BusUpdateView {
            line: self.line@,
            agent: match self.agent {
                Some(a) => Some(a@),
                None => None,
            },
            dream: match self.dream {
                Some(d) => Some(d@),
                None => None,
            },
        }
    }
}

/// What a frame seen at a time brings to the tabs: a row for the bus tab;
/// an agent report, when it is a phase frame; a dream report, when it is a
/// dream frame.
pub open spec fn update_of(frame: FrameView, now: u64) -> BusUpdateView {
    BusUpdateView {
        line: BusLineView {
            ts_ms: frame.ts_ms,
            subject: frame.subject,
            summary: summary_of(frame.subject, frame.payload),
        },
        agent: if has_prefix(frame.subject, "QUEEN.phase."@) {
            agent_of(frame.payload.tree, now)
        } else {
            None
        },
        dream: if frame.subject == "KANNAKA.dreams"@ {
            dream_of(frame.ts_ms, frame.payload.tree)
        } else {
            None
        },
    }
}

/// Sorts a frame by its subject.
pub fn route_frame(frame: Frame, now: u64) -> (r: BusUpdate)
    ensures
        r@ == update_of(frame@, now),
{
    let agent = if starts_with(frame.subject.as_str(), "QUEEN.phase.") {
        agent_snapshot_from_payload(frame.subject.as_str(), &frame.payload.json, now)
    } else {
        None
    };
    let dream = if same_text(frame.subject.as_str(), "KANNAKA.dreams") {
        dream_event_from_payload(frame.ts_ms, &frame.payload.json)
    } else {
        None
    };
    let summary = summarize_payload(frame.subject.as_str(), &frame.payload);
    BusUpdate {
        line: BusLine { ts_ms: frame.ts_ms, subject: frame.subject, summary },
        agent,
        dream,
    }
}

/// The frame in a document.
pub open spec fn frame_of(tree: JsonTree) -> FrameView {
    FrameView {
        ts_ms: tree.signed_or_zero("ts"@),
        subject: tree.text_or("subject"@, "?"@),
        payload: PayloadView {
            tree: tree.field_or_null("payload"@),
            compact: compact_json(tree.field_or_null("payload"@)),
        },
    }
}

/// Reads a frame out of a document whose payload is at hand.
pub fn frame_from_json(json: &Json, payload: Payload) -> (r: Frame)
    ensures
        r@ == (FrameView {
            ts_ms: json.tree().signed_or_zero("ts"@),
            subject: json.tree().text_or("subject"@, "?"@),
            payload: payload@,
        }),
{
    Frame {
        ts_ms: json.signed_or_zero("ts"),
        subject: json.text_or("subject", "?"),
        payload,
    }
}

/// What a line of the stream brings to the tabs. A blank line and a line
/// that is no JSON bring nothing.
pub open spec fn update_in_line(line: Seq<char>, now: u64) -> Option<BusUpdateView> {
    let body = trimmed(Edge::White, line);
    if body.len() == 0 {
        None
    } else {
        match parsed_json(body) {
            Ok(tree) => Some(update_of(frame_of(tree), now)),
            Err(_) => None,
        }
    }
}

/// Reads a line of the stream.
pub fn read_bus_line(line: &str, now: u64) -> (r: Option<BusUpdate>)
    ensures
        match r {
            Some(u) => update_in_line(line@, now) == Some(u@),
            None => update_in_line(line@, now) is None,
        },
{
    let body = trim(Edge::White, line);
    if body.as_str().is_empty() {
        return None;
    }
    match parse_with_payload(body.as_str(), "payload") {
        Ok((json, payload)) => {
            let frame = frame_from_json(&json, payload);
            assert(frame@ == frame_of(json.tree()));
            Some(route_frame(frame, now))
        },
        Err(_) => None,
    }
}

/// Every family of subjects has its colour, whatever follows its name; in the
/// family of the agents of the medium four subjects have their own.
pub proof fn law_subject_families(rest: Seq<char>)
    ensures
        subject_color("QUEEN.phase."@ + rest) == Color::Dim,
        !has_prefix(rest, "phase."@) ==> subject_color("QUEEN."@ + rest) == Color::Rgb(
            180,
            140,
            255,
        ),
        rest != "consciousness"@ && rest != "memory.new"@ && rest != "substrate.phi"@ && rest
            != "dreams"@ ==> subject_color("KANNAKA."@ + rest) == Color::Accent,
        subject_color("RADIO."@ + rest) == Color::Rgb(255, 100, 200),
        subject_color("KAX."@ + rest) == Color::Rgb(100, 200, 255),
        subject_color("EYE."@ + rest) == Color::Rgb(255, 200, 100),
{
    lemma_prefix_of_sum("QUEEN.phase."@, rest);
    lemma_prefix_of_sum("QUEEN."@, rest);
    lemma_prefix_of_sum("KANNAKA."@, rest);
    lemma_prefix_of_sum("RADIO."@, rest);
    lemma_prefix_of_sum("KAX."@, rest);
    lemma_prefix_of_sum("EYE."@, rest);
    reveal_strlit("QUEEN.phase.");
    reveal_strlit("QUEEN.");
    reveal_strlit("phase.");
    reveal_strlit("KANNAKA.");
    reveal_strlit("KANNAKA.consciousness");
    reveal_strlit("KANNAKA.memory.new");
    reveal_strlit("KANNAKA.substrate.phi");
    reveal_strlit("KANNAKA.dreams");
    reveal_strlit("consciousness");
    reveal_strlit("memory.new");
    reveal_strlit("substrate.phi");
    reveal_strlit("dreams");
    reveal_strlit("RADIO.");
    reveal_strlit("KAX.");
    reveal_strlit("EYE.");
    let queen = "QUEEN."@ + rest;
    if has_prefix(queen, "QUEEN.phase."@) {
        assert(queen.subrange(0, 12).subrange(6, 12) =~= "phase."@);
        assert(queen.subrange(0, 12).subrange(6, 12) =~= rest.subrange(0, 6));
    }
    let kannaka = "KANNAKA."@ + rest;
    assert(kannaka.subrange(8, kannaka.len() as int) =~= rest);
    assert("KANNAKA.consciousness"@.subrange(8, 21) =~= "consciousness"@);
    assert("KANNAKA.memory.new"@.subrange(8, 18) =~= "memory.new"@);
    assert("KANNAKA.substrate.phi"@.subrange(8, 21) =~= "substrate.phi"@);
    assert("KANNAKA.dreams"@.subrange(8, 14) =~= "dreams"@);
    assert(kannaka[0] == 'K');
    let radio = "RADIO."@ + rest;
    assert(radio[0] == 'R');
    let kax = "KAX."@ + rest;
    assert(kax[0] == 'K' && kax[2] == 'X');
    let eye = "EYE."@ + rest;
    assert(eye[0] == 'E');
    assert forall|s: Seq<char>, p: Seq<char>, i: int|
        0 <= i < p.len() && has_prefix(s, p) implies #[trigger] s[i] == #[trigger] p[i] by {
        assert(s.subrange(0, p.len() as int)[i] == s[i]);
    }
}

proof fn lemma_prefix_of_sum(p: Seq<char>, rest: Seq<char>)
    ensures
        has_prefix(p + rest, p),
{
    assert((p + rest).subrange(0, p.len() as int) =~= p);
}

} // verus!

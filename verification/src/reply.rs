//! What the `kannaka` binary answers, read into plain values.

use crate::json::{parse, parsed_json, Json, JsonTree};
use crate::text::{concat2, contains, has_part, signed_decimal, signed_digits, trim, trimmed, Edge};
use vstd::prelude::*;

verus! {

/// How a run of a program ended.
pub enum Outcome {
    /// It succeeded and wrote this.
    Success(String),
    /// It failed, with an exit code unless a signal ended it, and complained.
    Failure { code: Option<i32>, stderr: String },
    /// It could not be run.
    NotRun(String),
}

/// The model of an [`Outcome`].
pub enum OutcomeView {
    Success(Seq<char>),
    Failure { code: Option<i32>, stderr: Seq<char> },
    NotRun(Seq<char>),
}

impl View for Outcome {
    type V = OutcomeView;

    open spec fn view(&self) -> OutcomeView {
        match *self {
            Outcome::Success(t) => OutcomeView::Success(t@),
            Outcome::Failure { code, stderr } => OutcomeView::Failure { code, stderr: stderr@ },
            Outcome::NotRun(e) => OutcomeView::NotRun(e@),
        }
    }
}

/// The model of a reply: a text either way.
pub open spec fn text_reply(r: Result<String, String>) -> Result<Seq<char>, Seq<char>> {
    match r {
        Ok(t) => Ok(t@),
        Err(e) => Err(e@),
    }
}

// ---------------------------------------------------------------------------
// Status
// ---------------------------------------------------------------------------

/// The state of the memory. The three readings are doubles, by their bits.
pub struct Status {
    pub phi: u64,
    pub xi: u64,
    pub order: u64,
    pub memories: u64,
    pub clusters: u64,
    pub links: u64,
    pub level: String,
    pub active: u64,
}

/// The model of a [`Status`].
pub struct StatusView {
    pub phi: u64,
    pub xi: u64,
    pub order: u64,
    pub memories: u64,
    pub clusters: u64,
    pub links: u64,
    pub level: Seq<char>,
    pub active: u64,
}

impl View for Status {
    type V = StatusView;

    open spec fn view(&self) -> StatusView {
        StatusView {
            phi: self.phi,
            xi: self.xi,
            order: self.order,
            memories: self.memories,
            clusters: self.clusters,
            links: self.links,
            level: self.level@,
            active: self.active,
        }
    }
}

/// The part of a status document that holds the fields: the data of an
/// envelope, or the whole document.
pub open spec fn status_body(tree: JsonTree) -> JsonTree {
    if tree.field("schema_version"@) is Some && tree.field("data"@) is Some {
        tree.field("data"@)->0
    } else {
        tree
    }
}

/// The status in the fields of a status document.
pub open spec fn status_fields(body: JsonTree) -> StatusView {
    StatusView {
        phi: body.double_or_zero("phi"@),
        xi: body.double_or_zero("xi"@),
        order: body.double_or_zero("mean_order"@),
        memories: body.unsigned_or_zero("total_memories"@),
        clusters: body.unsigned_or_zero("num_clusters"@),
        links: 0,
        level: body.text_or("consciousness_level"@, "Unknown"@),
        active: body.unsigned_or_zero("active_memories"@),
    }
}

fn read_status_fields(body: &Json) -> (r: Status)
    ensures
        r@ == status_fields(body.tree()),
{
    Status {
        phi: body.double_or_zero("phi"),
        xi: body.double_or_zero("xi"),
        order: body.double_or_zero("mean_order"),
        memories: body.unsigned_or_zero("total_memories"),
        clusters: body.unsigned_or_zero("num_clusters"),
        links: 0,
        level: body.text_or("consciousness_level", "Unknown"),
        active: body.unsigned_or_zero("active_memories"),
    }
}

/// Reads a status document, in an envelope or without one.
pub fn status_from_json(json: &Json) -> (r: Status)
    ensures
        r@ == status_fields(status_body(json.tree())),
{
    if json.get("schema_version").is_some() {
        match json.get("data") {
            Some(data) => {
                return read_status_fields(data);
            },
            None => {},
        }
    }
    read_status_fields(json)
}

/// What a status run answers.
pub open spec fn status_answer(outcome: OutcomeView, bin: Seq<char>) -> Result<
    StatusView,
    Seq<char>,
> {
    match outcome {
        OutcomeView::Success(stdout) => match parsed_json(stdout) {
            Ok(tree) => Ok(status_fields(status_body(tree))),
            Err(e) => Err("status parse: "@ + e),
        },
        OutcomeView::Failure { code, stderr } => Err(
            "status failed: "@ + trimmed(Edge::White, stderr),
        ),
        OutcomeView::NotRun(e) => Err("status spawn failed at '"@ + bin + "': "@ + e),
    }
}

/// Reads the answer of a status run of a binary.
pub fn status_reply(outcome: Outcome, bin: &str) -> (r: Result<Status, String>)
    ensures
        match r {
            Ok(s) => status_answer(outcome@, bin@) == Ok::<StatusView, Seq<char>>(s@),
            Err(e) => status_answer(outcome@, bin@) == Err::<StatusView, Seq<char>>(e@),
        },
{
    match outcome {
        Outcome::Success(stdout) => match parse(stdout.as_str()) {
            Ok(json) => Ok(status_from_json(&json)),
            Err(e) => Err(concat2("status parse: ", e.as_str())),
        },
        Outcome::Failure { code, stderr } => Err(
            concat2("status failed: ", trim(Edge::White, stderr.as_str()).as_str()),
        ),
        Outcome::NotRun(e) => {
            let mut t = "status spawn failed at '".to_owned();
            t.append(bin);
            t.append("': ");
            t.append(e.as_str());
            Err(t)
        },
    }
}

// ---------------------------------------------------------------------------
// Observation
// ---------------------------------------------------------------------------

/// A memory with its amplitude, a double by its bits.
pub struct MemoryEntry {
    pub content: String,
    pub amplitude: u64,
}

/// The model of a [`MemoryEntry`].
pub struct MemoryView {
    pub content: Seq<char>,
    pub amplitude: u64,
}

impl View for MemoryEntry {
    type V = MemoryView;

    open spec fn view(&self) -> MemoryView {
        MemoryView { content: self.content@, amplitude: self.amplitude }
    }
}

/// The models of a list of memories.
pub open spec fn memories_view(v: Seq<MemoryEntry>) -> Seq<MemoryView> {
    v.map_values(|m: MemoryEntry| m@)
}

/// The memory that an item of an observation stands for.
pub open spec fn memory_of(item: JsonTree) -> MemoryView {
    MemoryView {
        content: item.text_or("content_preview"@, ""@),
        amplitude: item.double_or_zero("amplitude"@),
    }
}

/// The number of links in an observation.
pub open spec fn links_of(tree: JsonTree) -> u64 {
    tree.field_or_null("topology"@).unsigned_or_zero("total_links"@)
}

/// The strongest memories in an observation.
pub open spec fn strongest_of(tree: JsonTree) -> Seq<MemoryView> {
    match tree.field_or_null("waves"@).field("strongest"@) {
        Some(JsonTree::Array(items)) => items.map_values(|i: JsonTree| memory_of(i)),
        _ => seq![],
    }
}

/// Reads an observation: the number of links and the strongest memories.
pub fn observe_from_json(json: &Json) -> (r: (u64, Vec<MemoryEntry>))
    ensures
        r.0 == links_of(json.tree()),
        memories_view(r.1@) == strongest_of(json.tree()),
{
    let links: u64 = match json.get("topology") {
        Some(t) => t.unsigned_or_zero("total_links"),
        None => 0,
    };
    let mut out: Vec<MemoryEntry> = Vec::new();
    match json.get("waves") {
        Some(waves) => match waves.get("strongest") {
            Some(Json::Array(items)) => {
                let n: usize = items.len();
                let mut i: usize = 0;
                while i < n
                    invariant
                        i <= n,
                        n == items@.len(),
                        out@.len() == i,
                        forall|k: int| 0 <= k < i ==> out@[k]@ == memory_of(items@[k].tree()),
                    decreases n - i,
                {
                    let item = &items[i];
                    out.push(
                        MemoryEntry {
                            content: item.text_or("content_preview", ""),
                            amplitude: item.double_or_zero("amplitude"),
                        },
                    );
                    i = i + 1;
                }
                assert(memories_view(out@) =~= strongest_of(json.tree()));
            },
            _ => {
                assert(memories_view(out@) =~= strongest_of(json.tree()));
            },
        },
        None => {
            assert(memories_view(out@) =~= strongest_of(json.tree()));
        },
    }
    (links, out)
}

/// What an observation run answers.
pub open spec fn observe_answer(outcome: OutcomeView) -> Result<(u64, Seq<MemoryView>), Seq<char>> {
    match outcome {
        OutcomeView::Success(stdout) => match parsed_json(stdout) {
            Ok(tree) => Ok((links_of(tree), strongest_of(tree))),
            Err(e) => Err("observe parse: "@ + e),
        },
        OutcomeView::Failure { code, stderr } => Err("observe failed"@),
        OutcomeView::NotRun(e) => Err("observe spawn failed: "@ + e),
    }
}

/// Reads the answer of an observation run.
pub fn observe_reply(outcome: Outcome) -> (r: Result<(u64, Vec<MemoryEntry>), String>)
    ensures
        match r {
            Ok((links, memories)) => observe_answer(outcome@) == Ok::<
                (u64, Seq<MemoryView>),
                Seq<char>,
            >((links, memories_view(memories@))),
            Err(e) => observe_answer(outcome@) == Err::<(u64, Seq<MemoryView>), Seq<char>>(e@),
        },
{
    match outcome {
        Outcome::Success(stdout) => match parse(stdout.as_str()) {
            Ok(json) => Ok(observe_from_json(&json)),
            Err(e) => Err(concat2("observe parse: ", e.as_str())),
        },
        Outcome::Failure { code, stderr } => Err("observe failed".to_owned()),
        Outcome::NotRun(e) => Err(concat2("observe spawn failed: ", e.as_str())),
    }
}

// ---------------------------------------------------------------------------
// Dreams and one-shot questions
// ---------------------------------------------------------------------------

/// What a dream run answers.
pub open spec fn dream_answer(outcome: OutcomeView) -> Result<Seq<char>, Seq<char>> {
    match outcome {
        OutcomeView::Success(stdout) => Ok(trimmed(Edge::White, stdout)),
        OutcomeView::Failure { code, stderr } => Err(trimmed(Edge::White, stderr)),
        OutcomeView::NotRun(e) => Err("spawn failed: "@ + e),
    }
}

/// Reads the answer of a dream run.
pub fn dream_reply(outcome: Outcome) -> (r: Result<String, String>)
    ensures
        text_reply(r) == dream_answer(outcome@),
{
    match outcome {
        Outcome::Success(stdout) => Ok(trim(Edge::White, stdout.as_str())),
        Outcome::Failure { code, stderr } => Err(trim(Edge::White, stderr.as_str())),
        Outcome::NotRun(e) => Err(concat2("spawn failed: ", e.as_str())),
    }
}

/// What a one-shot question answers.
pub open spec fn ask_answer(outcome: OutcomeView) -> Result<Seq<char>, Seq<char>> {
    match outcome {
        OutcomeView::Success(stdout) => Ok(trimmed(Edge::White, stdout)),
        OutcomeView::Failure { code, stderr } => Err(
            "agent exited "@ + signed_digits(
                match code {
                    Some(c) => c as int,
                    None => -1,
                },
            ) + ": "@ + trimmed(Edge::White, stderr),
        ),
        OutcomeView::NotRun(e) => Err("spawn failed: "@ + e),
    }
}

/// Reads the answer of a one-shot question.
pub fn ask_reply(outcome: Outcome) -> (r: Result<String, String>)
    ensures
        text_reply(r) == ask_answer(outcome@),
{
    match outcome {
        Outcome::Success(stdout) => Ok(trim(Edge::White, stdout.as_str())),
        Outcome::Failure { code, stderr } => {
            let number: i32 = match code {
                Some(c) => c,
                None => -1,
            };
            let mut t = "agent exited ".to_owned();
            t.append(signed_decimal(number).as_str());
            t.append(": ");
            t.append(trim(Edge::White, stderr.as_str()).as_str());
            Err(t)
        },
        Outcome::NotRun(e) => Err(concat2("spawn failed: ", e.as_str())),
    }
}

// ---------------------------------------------------------------------------
// The chat child
// ---------------------------------------------------------------------------

/// One response of the chat child.
pub struct ChatReply {
    pub kind: String,
    pub text: String,
}

/// The model of a [`ChatReply`].
pub struct ChatReplyView {
    pub kind: Seq<char>,
    pub text: Seq<char>,
}

impl View for ChatReply {
    type V = ChatReplyView;

    open spec fn view(&self) -> ChatReplyView {
        ChatReplyView { kind: self.kind@, text: self.text@ }
    }
}

/// The response in a document: a chat response where it names no kind.
pub open spec fn chat_reply_of(tree: JsonTree) -> ChatReplyView {
    ChatReplyView { kind: tree.text_or("kind"@, "chat"@), text: tree.text_or("text"@, ""@) }
}

/// Reads a response out of a document.
pub fn chat_reply_from_json(json: &Json) -> (r: ChatReply)
    ensures
        r@ == chat_reply_of(json.tree()),
{
    ChatReply { kind: json.text_or("kind", "chat"), text: json.text_or("text", "") }
}

/// Reads a line that the chat child wrote; one that is no JSON is skipped.
pub fn read_chat_line(line: &str) -> (r: Option<ChatReply>)
    ensures
        match r {
            Some(reply) => parsed_json(line@) is Ok && reply@ == chat_reply_of(
                parsed_json(line@)->Ok_0,
            ),
            None => parsed_json(line@) is Err,
        },
{
    match parse(line) {
        Ok(json) => Some(chat_reply_from_json(&json)),
        Err(_) => None,
    }
}

/// Whether a line of complaint says that the chat child is ready.
pub fn announces_ready(line: &str) -> (r: bool)
    ensures
        r == has_part(line@, "\"ready\""@),
{
    contains(line, "\"ready\"")
}

} // verus!

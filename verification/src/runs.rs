//! Runs of the binary that the dashboard waits for: when to stop waiting, and
//! what their end does.

use crate::app::App;
use crate::effect::{effects, no_effects, Effect};
use crate::json::{parse, parsed_json, trees, Json, JsonTree};
use crate::model::{observe_wanted, still, told, AppView, Role, Step};
use crate::reply::{Outcome, OutcomeView};
use crate::text::{concat2, concat3, decimal, digits, first_chars, take_chars, trim, trimmed, Edge};
use vstd::prelude::*;

verus! {

// ---------------------------------------------------------------------------
// Storing, searching, deleting
// ---------------------------------------------------------------------------


/// The complaint of a run that failed.
pub open spec fn complaint(stderr: Seq<char>) -> Seq<char> {
    "Error: "@ + trimmed(Edge::White, stderr)
}

/// The dashboard after a run that stores a memory.
pub open spec fn remembered(a: AppView, outcome: OutcomeView) -> Step {
    match outcome {
        OutcomeView::Success(stdout) => observe_wanted(
            told(
                a,
                Role::Result,
                "Stored (id: "@ + trimmed(Edge::White, stdout) + ")"@,
            ),
        ),
        OutcomeView::Failure { code, stderr } => still(told(a, Role::Error, complaint(stderr))),
        OutcomeView::NotRun(e) => still(told(a, Role::Error, "Failed to run kannaka: "@ + e)),
    }
}

/// The message for a memory that a search found, the first being number one.
pub open spec fn found_row(number: nat, item: JsonTree) -> Seq<char> {
    "  "@ + digits(number) + ". "@ + first_chars(item.text_or("content"@, "?"@), 60) + " ("@ + (
    match item.number("similarity"@) {
        Some(n) => n.fixed2,
        None => "0.00"@,
    }) + ")"@
}

/// The dashboard with the memories that a search found in its command log.
pub open spec fn found_told(a: AppView, items: Seq<JsonTree>) -> AppView
    decreases items.len(),
{
    if items.len() == 0 {
        a
    } else {
        told(
            found_told(a, items.drop_last()),
            Role::Result,
            found_row(items.len(), items.last()),
        )
    }
}

/// The dashboard after a search that found these memories and took so many
/// milliseconds, given as a text.
pub open spec fn search_told(a: AppView, items: Seq<JsonTree>, millis: Seq<char>) -> AppView {
    found_told(
        told(a, Role::System, digits(items.len()) + " results ("@ + millis + "ms):"@),
        items,
    )
}

/// The dashboard after a search that took so many milliseconds, given as a
/// text. An output that is no list is shown as it is.
pub open spec fn recalled(a: AppView, outcome: OutcomeView, millis: Seq<char>) -> AppView {
    match outcome {
        OutcomeView::Success(stdout) => match parsed_json(stdout) {
            Ok(JsonTree::Array(items)) => search_told(a, items, millis),
            _ => told(a, Role::Result, trimmed(Edge::White, stdout)),
        },
        OutcomeView::Failure { code, stderr } => told(a, Role::Error, complaint(stderr)),
        OutcomeView::NotRun(e) => told(a, Role::Error, "Failed: "@ + e),
    }
}

/// The dashboard after a run that deletes a memory.
pub open spec fn forgotten(a: AppView, outcome: OutcomeView) -> Step {
    match outcome {
        OutcomeView::Success(stdout) => observe_wanted(
            told(a, Role::Result, trimmed(Edge::White, stdout)),
        ),
        OutcomeView::Failure { code, stderr } => still(told(a, Role::Error, complaint(stderr))),
        OutcomeView::NotRun(e) => still(told(a, Role::Error, "Failed: "@ + e)),
    }
}

// ---------------------------------------------------------------------------
// Any other subcommand
// ---------------------------------------------------------------------------

/// How a run with a time limit stands.
pub enum Probe {
    /// It is through.
    Exited,
    /// It is not.
    Running,
    /// That cannot be told.
    Broken(String),
}

/// How a run with a time limit ended.
pub enum PassEnd {
    /// It succeeded and wrote this.
    Success(String),
    /// It failed and complained.
    Failure(String),
    /// It could not be started.
    NotStarted(String),
    /// It could not be waited for.
    NotWaited(String),
    /// What it wrote could not be collected.
    NotCollected(String),
    /// It was stopped after so many seconds.
    TimedOut(u64),
    /// The thread that waited for it came to grief.
    Panicked,
}

/// The model of a [`PassEnd`].
pub enum PassEndView {
    Success(Seq<char>),
    Failure(Seq<char>),
    NotStarted(Seq<char>),
    NotWaited(Seq<char>),
    NotCollected(Seq<char>),
    TimedOut(u64),
    Panicked,
}

impl View for PassEnd {
    type V = PassEndView;

    open spec fn view(&self) -> PassEndView {
        match *self {
            PassEnd::Success(t) => PassEndView::Success(t@),
            PassEnd::Failure(t) => PassEndView::Failure(t@),
            PassEnd::NotStarted(t) => PassEndView::NotStarted(t@),
            PassEnd::NotWaited(t) => PassEndView::NotWaited(t@),
            PassEnd::NotCollected(t) => PassEndView::NotCollected(t@),
            PassEnd::TimedOut(secs) => PassEndView::TimedOut(secs),
            PassEnd::Panicked => PassEndView::Panicked,
        }
    }
}

/// What to do next about a run with a time limit.
pub enum Wait {
    /// Collect what it wrote.
    Collect,
    /// Look again after so many milliseconds.
    Sleep(u64),
    /// Stop it; it has ended so.
    Kill(PassEnd),
    /// Leave it; it has ended so.
    Leave(PassEnd),
}

/// Whether a time in nanoseconds is longer than a limit in seconds.
pub open spec fn over_limit(elapsed: u64, timeout_secs: u64) -> bool {
    elapsed > timeout_secs * 1_000_000_000
}

/// Decides what to do next about a run that began some nanoseconds ago.
pub fn next_wait(probe: Probe, elapsed: u64, timeout_secs: u64) -> (r: Wait)
    ensures
        match probe {
            Probe::Exited => r is Collect,
            Probe::Running => if over_limit(elapsed, timeout_secs) {
                r == Wait::Kill(PassEnd::TimedOut(timeout_secs))
            } else {
                r == Wait::Sleep(150)
            },
            Probe::Broken(e) => r == Wait::Leave(PassEnd::NotWaited(e)),
        },
{
    match probe {
        Probe::Exited => Wait::Collect,
        Probe::Running => {
            if elapsed as u128 > timeout_secs as u128 * 1_000_000_000 {
                Wait::Kill(PassEnd::TimedOut(timeout_secs))
            } else {
                Wait::Sleep(150)
            }
        },
        Probe::Broken(e) => Wait::Leave(PassEnd::NotWaited(e)),
    }
}

/// The dashboard without the last message of its command log, if that is one
/// of the system.
pub open spec fn notice_taken_back(a: AppView) -> AppView {
    if a.messages.len() > 0 && a.messages.last().role == Role::System {
        AppView { messages: a.messages.drop_last(), ..a }
    } else {
        a
    }
}

/// The dashboard after a run with a time limit: what it wrote, or the
/// complaint, takes the place of the notice that it was running.
pub open spec fn passed_through(a: AppView, end: PassEndView) -> Step {
    let b = notice_taken_back(a);
    match end {
        PassEndView::Success(stdout) => {
            let body = trimmed(Edge::White, stdout);
            observe_wanted(
                told(
                    b,
                    Role::Result,
                    if body.len() == 0 {
                        "(no output)"@
                    } else {
                        body
                    },
                ),
            )
        },
        PassEndView::Failure(stderr) => still(told(b, Role::Error, complaint(stderr))),
        PassEndView::NotStarted(e) => still(told(b, Role::Error, "spawn: "@ + e)),
        PassEndView::NotWaited(e) => still(told(b, Role::Error, "wait: "@ + e)),
        PassEndView::NotCollected(e) => still(told(b, Role::Error, e)),
        PassEndView::TimedOut(secs) => still(
            told(b, Role::Error, "timeout after "@ + digits(secs as nat) + "s"@),
        ),
        PassEndView::Panicked => still(told(b, Role::Error, "thread panicked"@)),
    }
}

/// The line that tells of a plugin that could not be started.
pub fn plugin_failure_line(error: &str) -> (r: String)
    ensures
        r@ == "[plugin spawn failed: "@ + error@ + "]"@,
{
    concat3("[plugin spawn failed: ", error, "]")
}

fn complain(stderr: &str) -> (r: String)
    ensures
        r@ == complaint(stderr@),
{
    concat2("Error: ", trim(Edge::White, stderr).as_str())
}

fn write_found_row(number: u64, item: &Json) -> (r: String)
    ensures
        r@ == found_row(number as nat, item.tree()),
{
    let mut r = "  ".to_owned();
    r.append(decimal(number).as_str());
    r.append(". ");
    let content = item.text_or("content", "?");
    r.append(take_chars(content.as_str(), 60).as_str());
    r.append(" (");
    match item.number("similarity") {
        Some(n) => r.append(n.fixed2.as_str()),
        None => r.append("0.00"),
    }
    r.append(")");
    r
}

impl App {
    /// Takes the end of a run that stores a memory.
    pub fn finish_remember(&mut self, outcome: Outcome) -> (r: Vec<Effect>)
        requires
            old(self).wf(),
        ensures
            final(self).wf(),
            final(self)@ == remembered(old(self)@, outcome@).app,
            effects(r@) == remembered(old(self)@, outcome@).work,
    {
        match outcome {
            Outcome::Success(stdout) => {
                let id = trim(Edge::White, stdout.as_str());
                let text = concat3("Stored (id: ", id.as_str(), ")");
                self.tell(Role::Result, text.as_str());
                self.load_observe()
            },
            Outcome::Failure { code, stderr } => {
                self.tell(Role::Error, complain(stderr.as_str()).as_str());
                no_effects()
            },
            Outcome::NotRun(e) => {
                let text = concat2("Failed to run kannaka: ", e.as_str());
                self.tell(Role::Error, text.as_str());
                no_effects()
            },
        }
    }

    /// Lists the memories that a search found in the command log.
    pub fn tell_found(&mut self, items: &Vec<Json>, millis: &str)
        requires
            old(self).wf(),
        ensures
            final(self).wf(),
            final(self)@ == search_told(old(self)@, trees(items@), millis@),
    {
        let mut text = decimal(items.len() as u64);
        text.append(" results (");
        text.append(millis);
        text.append("ms):");
        self.tell(Role::System, text.as_str());
        let ghost all = trees(items@);
        let ghost start = self@;
        let n: usize = items.len();
        let mut i: usize = 0;
        assert(all.subrange(0, 0) =~= seq![]);
        while i < n
            invariant
                i <= n,
                n == items@.len(),
                all == trees(items@),
                self.wf(),
                self@ == found_told(start, all.subrange(0, i as int)),
            decreases n - i,
        {
            assert(all.subrange(0, i + 1).drop_last() =~= all.subrange(0, i as int));
            let row = write_found_row(i as u64 + 1, &items[i]);
            self.tell(Role::Result, row.as_str());
            i = i + 1;
        }
        assert(all.subrange(0, n as int) =~= all);
    }

    /// Takes the end of a search, which took so many milliseconds.
    pub fn finish_recall(&mut self, outcome: Outcome, millis: &str)
        requires
            old(self).wf(),
        ensures
            final(self).wf(),
            final(self)@ == recalled(old(self)@, outcome@, millis@),
    {
        match outcome {
            Outcome::Success(stdout) => match parse(stdout.as_str()) {
                Ok(Json::Array(items)) => {
                    assert(Json::Array(items).tree()->Array_0 =~= trees(items@));
                    self.tell_found(&items, millis);
                },
                _ => {
                    self.tell(Role::Result, trim(Edge::White, stdout.as_str()).as_str());
                },
            },
            Outcome::Failure { code, stderr } => {
                self.tell(Role::Error, complain(stderr.as_str()).as_str());
            },
            Outcome::NotRun(e) => {
                let text = concat2("Failed: ", e.as_str());
                self.tell(Role::Error, text.as_str());
            },
        }
    }

    /// Takes the end of a run that deletes a memory.
    pub fn finish_forget(&mut self, outcome: Outcome) -> (r: Vec<Effect>)
        requires
            old(self).wf(),
        ensures
            final(self).wf(),
            final(self)@ == forgotten(old(self)@, outcome@).app,
            effects(r@) == forgotten(old(self)@, outcome@).work,
    {
        match outcome {
            Outcome::Success(stdout) => {
                self.tell(Role::Result, trim(Edge::White, stdout.as_str()).as_str());
                self.load_observe()
            },
            Outcome::Failure { code, stderr } => {
                self.tell(Role::Error, complain(stderr.as_str()).as_str());
                no_effects()
            },
            Outcome::NotRun(e) => {
                let text = concat2("Failed: ", e.as_str());
                self.tell(Role::Error, text.as_str());
                no_effects()
            },
        }
    }

    fn take_back_notice(&mut self)
        requires
            old(self).wf(),
        ensures
            final(self).wf(),
            final(self)@ == notice_taken_back(old(self)@),
    {
        let n: usize = self.messages.len();
        if n > 0 {
            if self.messages[n - 1].role == Role::System {
                let _ = self.messages.pop();
                assert(self@ =~= notice_taken_back(old(self)@));
            }
        }
    }

    /// Takes the end of a run with a time limit.
    pub fn finish_passthrough(&mut self, end: PassEnd) -> (r: Vec<Effect>)
        requires
            old(self).wf(),
        ensures
            final(self).wf(),
            final(self)@ == passed_through(old(self)@, end@).app,
            effects(r@) == passed_through(old(self)@, end@).work,
    {
        self.take_back_notice();
        let error = match end {
            PassEnd::Success(stdout) => {
                let body = trim(Edge::White, stdout.as_str());
                if body.as_str().is_empty() {
                    self.tell(Role::Result, "(no output)");
                } else {
                    self.tell(Role::Result, body.as_str());
                }
                return self.load_observe();
            },
            PassEnd::Failure(stderr) => complain(stderr.as_str()),
            PassEnd::NotStarted(e) => concat2("spawn: ", e.as_str()),
            PassEnd::NotWaited(e) => concat2("wait: ", e.as_str()),
            PassEnd::NotCollected(e) => e,
            PassEnd::TimedOut(secs) => concat3("timeout after ", decimal(secs).as_str(), "s"),
            PassEnd::Panicked => "thread panicked".to_owned(),
        };
        self.tell(Role::Error, error.as_str());
        no_effects()
    }
}

} // verus!

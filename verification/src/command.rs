//! The command language of the input bar.

use crate::text::{
    after, concat2, concat3, has_prefix, one_text, push_text, same_text, split_whitespace,
    starts_with, strip_prefix, texts, trim, trimmed, two_texts, words, Edge,
};
use vstd::prelude::*;

verus! {

/// What a line of input asks for.
pub enum Command {
    /// Store a memory.
    Remember(String),
    /// Search by resonance.
    Recall(String),
    /// Delete a memory.
    Forget(String),
    /// Run a dream cycle in a mode.
    Dream(String),
    /// Poll the status and the memories again.
    Refresh,
    /// Say how `hear` is used.
    HearUsage,
    /// Run the binary with these arguments, for so long at most.
    Passthrough { label: String, args: Vec<String>, timeout_secs: u64 },
    /// Show the help overlay.
    Help,
    /// Leave.
    Quit,
    /// Talk to the agent.
    Chat,
}

/// The model of a [`Command`].
pub enum CommandView {
    Remember(Seq<char>),
    Recall(Seq<char>),
    Forget(Seq<char>),
    Dream(Seq<char>),
    Refresh,
    HearUsage,
    Passthrough { label: Seq<char>, args: Seq<Seq<char>>, timeout_secs: u64 },
    Help,
    Quit,
    Chat,
}

impl View for Command {
    type V = CommandView;

    open spec fn view(&self) -> CommandView {
        match *self {
            Command::Remember(t) => CommandView::Remember(t@),
            Command::Recall(t) => CommandView::Recall(t@),
            Command::Forget(t) => CommandView::Forget(t@),
            Command::Dream(t) => CommandView::Dream(t@),
            Command::Refresh => CommandView::Refresh,
            Command::HearUsage => CommandView::HearUsage,
            Command::Passthrough { label, args, timeout_secs } => CommandView::Passthrough {
                label: label@,
                args: texts(args@),
                timeout_secs,
            },
            Command::Help => CommandView::Help,
            Command::Quit => CommandView::Quit,
            Command::Chat => CommandView::Chat,
        }
    }
}

/// What stands behind a prefix, without white space around it.
pub open spec fn argument(line: Seq<char>, prefix: Seq<char>) -> Seq<char> {
    trimmed(Edge::White, after(line, prefix))
}

/// What stands behind a prefix, without white space and quotation marks
/// around it.
pub open spec fn quoted_argument(line: Seq<char>, prefix: Seq<char>) -> Seq<char> {
    trimmed(Edge::Quote, argument(line, prefix))
}

/// A run of the binary with the words of a line.
pub open spec fn forwarded(line: Seq<char>, timeout_secs: u64) -> CommandView {
    CommandView::Passthrough { label: line, args: words(line), timeout_secs }
}

/// A run of the binary with a single word.
pub open spec fn bare(verb: Seq<char>, timeout_secs: u64) -> CommandView {
    CommandView::Passthrough { label: verb, args: seq![verb], timeout_secs }
}

/// The mode in which a line with the verb `dream` asks for a dream: lite where
/// it says so, else deep.
pub open spec fn dream_mode(line: Seq<char>) -> Seq<char> {
    if has_prefix(line, "dream "@) && argument(line, "dream "@) == "lite"@ {
        "lite"@
    } else {
        "deep"@
    }
}

/// The command that a line with the verb `hear` stands for.
pub open spec fn hear_command(line: Seq<char>) -> CommandView {
    let rest = argument(line, "hear"@);
    if rest.len() == 0 {
        CommandView::HearUsage
    } else {
        CommandView::Passthrough {
            label: "hear "@ + rest,
            args: seq!["hear"@] + words(rest),
            timeout_secs: 300,
        }
    }
}

/// The command that a line stands for, among those whose argument is passed
/// on as it is or that have none.
pub open spec fn plain_command(line: Seq<char>) -> CommandView {
    if line == "assess"@ {
        bare("assess"@, 60)
    } else if line == "stats"@ {
        bare("stats"@, 30)
    } else if line == "cmf"@ {
        bare("cmf"@, 60)
    } else if line == "invariant"@ || has_prefix(line, "invariant "@) {
        forwarded(line, 60)
    } else if has_prefix(line, "voice"@) {
        forwarded(line, 300)
    } else if line == "swarm"@ || has_prefix(line, "swarm "@) {
        forwarded(line, 60)
    } else if line == "help"@ || line == "?"@ {
        CommandView::Help
    } else if line == "quit"@ || line == "exit"@ || line == "q"@ {
        CommandView::Quit
    } else {
        CommandView::Chat
    }
}

/// The command that a line stands for.
pub open spec fn command_of(line: Seq<char>) -> CommandView {
    if has_prefix(line, "remember "@) {
        CommandView::Remember(quoted_argument(line, "remember "@))
    } else if has_prefix(line, "recall "@) {
        CommandView::Recall(quoted_argument(line, "recall "@))
    } else if has_prefix(line, "forget "@) {
        CommandView::Forget(argument(line, "forget "@))
    } else if line == "dream"@ || has_prefix(line, "dream "@) {
        CommandView::Dream(dream_mode(line))
    } else if line == "status"@ || line == "observe"@ {
        CommandView::Refresh
    } else if line == "hear"@ || has_prefix(line, "hear "@) {
        hear_command(line)
    } else if has_prefix(line, "ask "@) {
        let q = quoted_argument(line, "ask "@);
        CommandView::Passthrough {
            label: "ask \""@ + q + "\""@,
            args: seq!["ask"@, "--no-tools"@, "--quiet-tools"@, q],
            timeout_secs: 600,
        }
    } else if has_prefix(line, "search "@) {
        let q = quoted_argument(line, "search "@);
        CommandView::Passthrough {
            label: "search \""@ + q + "\""@,
            args: seq!["search"@, q],
            timeout_secs: 30,
        }
    } else if has_prefix(line, "boost "@) {
        let id = argument(line, "boost "@);
        CommandView::Passthrough {
            label: "boost "@ + id,
            args: seq!["boost"@, id],
            timeout_secs: 30,
        }
    } else {
        plain_command(line)
    }
}

/// A line without the slash that may stand before a command.
pub open spec fn without_slash(line: Seq<char>) -> Seq<char> {
    if has_prefix(line, "/"@) {
        after(line, "/"@)
    } else {
        line
    }
}

fn pass(label: String, args: Vec<String>, timeout_secs: u64) -> (r: Command)
    ensures
        r@ == (CommandView::Passthrough { label: label@, args: texts(args@), timeout_secs }),
{
    Command::Passthrough { label, args, timeout_secs }
}

/// Drops the slash that may stand before a command.
pub fn strip_slash(line: &str) -> (r: String)
    ensures
        r@ == without_slash(line@),
{
    match strip_prefix(line, "/") {
        Some(rest) => rest,
        None => line.to_owned(),
    }
}

fn quoted_rest(rest: &str) -> (r: String)
    ensures
        r@ == trimmed(Edge::Quote, trimmed(Edge::White, rest@)),
{
    trim(Edge::Quote, trim(Edge::White, rest).as_str())
}

/// Reads a command.
pub fn parse_command(line: &str) -> (r: Command)
    ensures
        r@ == command_of(line@),
{
    if let Some(rest) = strip_prefix(line, "remember ") {
        return Command::Remember(quoted_rest(rest.as_str()));
    }
    if let Some(rest) = strip_prefix(line, "recall ") {
        return Command::Recall(quoted_rest(rest.as_str()));
    }
    if let Some(rest) = strip_prefix(line, "forget ") {
        return Command::Forget(trim(Edge::White, rest.as_str()));
    }
    if same_text(line, "dream") {
        proof {
            reveal_strlit("dream");
            reveal_strlit("dream ");
        }
        return Command::Dream("deep".to_owned());
    }
    if let Some(rest) = strip_prefix(line, "dream ") {
        if same_text(trim(Edge::White, rest.as_str()).as_str(), "lite") {
            return Command::Dream("lite".to_owned());
        }
        return Command::Dream("deep".to_owned());
    }
    if same_text(line, "status") || same_text(line, "observe") {
        return Command::Refresh;
    }
    if same_text(line, "hear") || starts_with(line, "hear ") {
        return parse_hear(line);
    }
    if let Some(rest) = strip_prefix(line, "ask ") {
        let q = quoted_rest(rest.as_str());
        let mut args = two_texts("ask", "--no-tools");
        push_text(&mut args, "--quiet-tools");
        push_text(&mut args, q.as_str());
        assert(texts(args@) =~= seq!["ask"@, "--no-tools"@, "--quiet-tools"@, q@]);
        return pass(concat3("ask \"", q.as_str(), "\""), args, 600);
    }
    if let Some(rest) = strip_prefix(line, "search ") {
        let q = quoted_rest(rest.as_str());
        return pass(
            concat3("search \"", q.as_str(), "\""),
            two_texts("search", q.as_str()),
            30,
        );
    }
    if let Some(rest) = strip_prefix(line, "boost ") {
        let id = trim(Edge::White, rest.as_str());
        return pass(concat2("boost ", id.as_str()), two_texts("boost", id.as_str()), 30);
    }
    parse_plain(line)
}

fn parse_hear(line: &str) -> (r: Command)
    requires
        line@ == "hear"@ || has_prefix(line@, "hear "@),
    ensures
        r@ == hear_command(line@),
{
    proof {
        reveal_strlit("hear");
        reveal_strlit("hear ");
        if has_prefix(line@, "hear "@) {
            assert(line@.subrange(0, 4) =~= line@.subrange(0, 5).subrange(0, 4));
            assert("hear "@.subrange(0, 4) =~= "hear"@);
        } else {
            assert(line@.subrange(0, 4) =~= "hear"@);
        }
    }
    match strip_prefix(line, "hear") {
        Some(behind) => {
            let rest = trim(Edge::White, behind.as_str());
            if rest.as_str().is_empty() {
                return Command::HearUsage;
            }
            let mut args = one_text("hear");
            let mut parts = split_whitespace(rest.as_str());
            let ghost first = args@;
            let ghost more = parts@;
            args.append(&mut parts);
            assert(texts(args@) =~= texts(first) + texts(more));
            pass(concat2("hear ", rest.as_str()), args, 300)
        },
        None => Command::HearUsage,
    }
}

fn parse_plain(line: &str) -> (r: Command)
    ensures
        r@ == plain_command(line@),
{
    if same_text(line, "assess") {
        return pass("assess".to_owned(), one_text("assess"), 60);
    }
    if same_text(line, "stats") {
        return pass("stats".to_owned(), one_text("stats"), 30);
    }
    if same_text(line, "cmf") {
        return pass("cmf".to_owned(), one_text("cmf"), 60);
    }
    if same_text(line, "invariant") || starts_with(line, "invariant ") {
        return pass(line.to_owned(), split_whitespace(line), 60);
    }
    if starts_with(line, "voice") {
        return pass(line.to_owned(), split_whitespace(line), 300);
    }
    if same_text(line, "swarm") || starts_with(line, "swarm ") {
        return pass(line.to_owned(), split_whitespace(line), 60);
    }
    if same_text(line, "help") || same_text(line, "?") {
        return Command::Help;
    }
    if same_text(line, "quit") || same_text(line, "exit") || same_text(line, "q") {
        return Command::Quit;
    }
    Command::Chat
}

} // verus!

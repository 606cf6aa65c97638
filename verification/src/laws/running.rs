//! What holds of commands: what they are taken for, what they run, and what
//! their end leaves in the command log.

use crate::chat::{turn_routed, turn_work, ChatLineView, ChatView, ChatWho, Pending};
use crate::command::{command_of, without_slash, CommandView};
use crate::effect::{EffectView, Plugin, Task};
use crate::input::{cleared, recorded};
use crate::json::{parsed_json, JsonTree};
use crate::laws::lemma_commands_only_add;
use crate::live::{bus_wanted, bus_work};
use crate::model::{
    chat_line_entered, commanded, line_done, line_done_after, refreshed, submitted, talked, AppView,
    MessageView, Role, CHAT_TAB,
};
use crate::reply::OutcomeView;
use crate::runs::{
    forgotten, found_row, found_told, over_limit, passed_through, recalled, remembered, search_told,
    PassEndView,
};
use crate::text::{
    after, digits, first_chars, has_part, has_prefix, is_white, law_part_of_a_sum,
    law_prefix_and_rest, law_trimming_leaves_the_core, law_word_alone,
    law_words_part_at_white_space, trimmed, words, Edge,
};
use vstd::prelude::*;

verus! {

// ---------------------------------------------------------------------------
// The end of a run
// ---------------------------------------------------------------------------

/// Whether a command log is another with one message more, of a role.
pub open spec fn one_more(after: AppView, before: AppView, role: Role) -> bool {
    &&& after.messages.len() == before.messages.len() + 1
    &&& after.messages.drop_last() == before.messages
    &&& after.messages.last().role == role
}

/// Whether two dashboards differ in nothing but the command log, and in
/// whether an observation is awaited.
pub open spec fn same_but_log(after: AppView, before: AppView) -> bool {
    after == (AppView {
        messages: after.messages,
        observe_pending: after.observe_pending,
        ..before
    })
}

/// Whether work is an observation, unless one was awaited already, and one is
/// awaited now.
pub open spec fn asks_to_observe(
    after: AppView,
    before: AppView,
    work: Seq<EffectView>,
) -> bool {
    &&& after.observe_pending
    &&& work == if before.observe_pending {
        seq![]
    } else {
        seq![EffectView { task: Task::Observe, args: seq!["observe"@, "--json"@] }]
    }
}

/// Whether a text is a core with white space around it.
pub open spec fn around(before: Seq<char>, core: Seq<char>, behind: Seq<char>) -> bool {
    &&& forall|i: int| 0 <= i < before.len() ==> is_white(#[trigger] before[i])
    &&& forall|i: int| 0 <= i < behind.len() ==> is_white(#[trigger] behind[i])
    &&& core.len() > 0 ==> !is_white(core[0]) && !is_white(core.last())
}

proof fn lemma_core(before: Seq<char>, core: Seq<char>, behind: Seq<char>)
    requires
        around(before, core, behind),
    ensures
        trimmed(Edge::White, before + core + behind) == core,
{
    law_trimming_leaves_the_core(Edge::White, before, core, behind);
}

proof fn lemma_ends_with(head: Seq<char>, tail: Seq<char>)
    ensures
        has_part(head + tail, tail),
{
    law_part_of_a_sum(head, tail, seq![]);
    assert(head + tail + seq![] =~= head + tail);
}

/// A memory that was stored is told of in one message that holds its id, and
/// the memories are looked at again; a failure is told of with its complaint.
pub proof fn law_storing_is_told(
    a: AppView,
    before: Seq<char>,
    core: Seq<char>,
    behind: Seq<char>,
    code: Option<i32>,
)
    requires
        around(before, core, behind),
    ensures
        ({
            let text = before + core + behind;
            let s = remembered(a, OutcomeView::Success(text));
            let f = remembered(a, OutcomeView::Failure { code, stderr: text });
            let n = remembered(a, OutcomeView::NotRun(text));
            &&& one_more(s.app, a, Role::Result) && same_but_log(s.app, a)
            &&& s.app.messages.last().content == "Stored (id: "@ + core + ")"@
            &&& asks_to_observe(s.app, a, s.work)
            &&& one_more(f.app, a, Role::Error) && same_but_log(f.app, a) && f.work.len() == 0
            &&& f.app.observe_pending == a.observe_pending
            &&& has_part(f.app.messages.last().content, core)
            &&& one_more(n.app, a, Role::Error) && same_but_log(n.app, a) && n.work.len() == 0
            &&& n.app.observe_pending == a.observe_pending
            &&& has_part(n.app.messages.last().content, text)
        }),
{
    lemma_core(before, core, behind);
    let text = before + core + behind;
    lemma_ends_with("Error: "@, core);
    lemma_ends_with("Failed to run kannaka: "@, text);
    assert forall|m: MessageView| #[trigger] a.messages.push(m).drop_last() == a.messages by {
        assert(a.messages.push(m).drop_last() =~= a.messages);
    }
}

/// A memory that was deleted is told of with all that the run wrote, and the
/// memories are looked at again; a failure is told of with its complaint.
pub proof fn law_deleting_is_told(
    a: AppView,
    before: Seq<char>,
    core: Seq<char>,
    behind: Seq<char>,
    code: Option<i32>,
)
    requires
        around(before, core, behind),
    ensures
        ({
            let text = before + core + behind;
            let s = forgotten(a, OutcomeView::Success(text));
            let f = forgotten(a, OutcomeView::Failure { code, stderr: text });
            let n = forgotten(a, OutcomeView::NotRun(text));
            &&& one_more(s.app, a, Role::Result) && same_but_log(s.app, a)
            &&& s.app.messages.last().content == core
            &&& asks_to_observe(s.app, a, s.work)
            &&& one_more(f.app, a, Role::Error) && same_but_log(f.app, a) && f.work.len() == 0
            &&& f.app.observe_pending == a.observe_pending
            &&& has_part(f.app.messages.last().content, core)
            &&& one_more(n.app, a, Role::Error) && same_but_log(n.app, a) && n.work.len() == 0
            &&& n.app.observe_pending == a.observe_pending
            &&& has_part(n.app.messages.last().content, text)
        }),
{
    lemma_core(before, core, behind);
    let text = before + core + behind;
    lemma_ends_with("Error: "@, core);
    lemma_ends_with("Failed: "@, text);
    assert forall|m: MessageView| #[trigger] a.messages.push(m).drop_last() == a.messages by {
        assert(a.messages.push(m).drop_last() =~= a.messages);
    }
}

proof fn lemma_found_told(a: AppView, items: Seq<JsonTree>)
    ensures
        ({
            let b = found_told(a, items);
            &&& b == (AppView { messages: b.messages, ..a })
            &&& b.messages.len() == a.messages.len() + items.len()
            &&& forall|k: int|
                0 <= k < a.messages.len() ==> #[trigger] b.messages[k] == a.messages[k]
            &&& forall|k: int|
                #![trigger items[k]]
                0 <= k < items.len() ==> b.messages[a.messages.len() + k] == (MessageView {
                    role: Role::Result,
                    content: found_row((k + 1) as nat, items[k]),
                })
        }),
    decreases items.len(),
{
    if items.len() > 0 {
        let front = items.drop_last();
        lemma_found_told(a, front);
        let b = found_told(a, items);
        assert forall|k: int| #![trigger items[k]] 0 <= k < items.len() implies b.messages[
        a.messages.len() + k] == (MessageView {
            role: Role::Result,
            content: found_row((k + 1) as nat, items[k]),
        }) by {
            if k < front.len() {
                assert(front[k] == items[k]);
            }
        }
    }
}

/// A search that found memories adds to the command log a message with their
/// number and the time, and then one message for each memory and in their
/// order: its number counted from one, the beginning of its content, and its
/// similarity. None is left out, and nothing else changes.
pub proof fn law_search_lists_every_hit(a: AppView, items: Seq<JsonTree>, millis: Seq<char>)
    ensures
        ({
            let b = search_told(a, items, millis);
            let n = a.messages.len();
            &&& b == (AppView { messages: b.messages, ..a })
            &&& b.messages.len() == n + 1 + items.len()
            &&& forall|k: int| 0 <= k < n ==> #[trigger] b.messages[k] == a.messages[k]
            &&& b.messages[n as int].role == Role::System
            &&& has_prefix(b.messages[n as int].content, digits(items.len()))
            &&& has_part(b.messages[n as int].content, millis)
            &&& forall|k: int|
                #![trigger items[k]]
                0 <= k < items.len() ==> {
                    let m = b.messages[n + 1 + k];
                    let content = match items[k].text("content"@) {
                        Some(t) => t,
                        None => "?"@,
                    };
                    let similarity = match items[k].number("similarity"@) {
                        Some(x) => x.fixed2,
                        None => "0.00"@,
                    };
                    &&& m.role == Role::Result
                    &&& m.content == "  "@ + digits((k + 1) as nat) + ". "@ + first_chars(
                        content,
                        60,
                    ) + " ("@ + similarity + ")"@
                }
        }),
{
    let count = digits(items.len());
    let head = count + " results ("@ + millis + "ms):"@;
    let b = AppView {
        messages: a.messages.push(MessageView { role: Role::System, content: head }),
        ..a
    };
    lemma_found_told(b, items);
    law_part_of_a_sum(count + " results ("@, millis, "ms):"@);
    law_prefix_and_rest(head, count, " results ("@ + millis + "ms):"@);
    assert(head =~= count + (" results ("@ + millis + "ms):"@));
}

/// A search is told of hit by hit where it answers with a list, and with all
/// that it wrote where it does not; a failure with its complaint.
pub proof fn law_search_is_told(
    a: AppView,
    before: Seq<char>,
    core: Seq<char>,
    behind: Seq<char>,
    code: Option<i32>,
    millis: Seq<char>,
)
    requires
        around(before, core, behind),
    ensures
        ({
            let text = before + core + behind;
            let s = recalled(a, OutcomeView::Success(text), millis);
            let f = recalled(a, OutcomeView::Failure { code, stderr: text }, millis);
            let n = recalled(a, OutcomeView::NotRun(text), millis);
            &&& match parsed_json(text) {
                Ok(JsonTree::Array(items)) => s.messages.len() == a.messages.len() + 1
                    + items.len() && s == search_told(a, items, millis),
                _ => one_more(s, a, Role::Result) && s.messages.last().content == core,
            }
            &&& same_but_log(s, a) && s.observe_pending == a.observe_pending
            &&& one_more(f, a, Role::Error) && f == (AppView { messages: f.messages, ..a })
            &&& has_part(f.messages.last().content, core)
            &&& one_more(n, a, Role::Error) && n == (AppView { messages: n.messages, ..a })
            &&& has_part(n.messages.last().content, text)
        }),
{
    lemma_core(before, core, behind);
    let text = before + core + behind;
    lemma_ends_with("Error: "@, core);
    lemma_ends_with("Failed: "@, text);
    if let Ok(JsonTree::Array(items)) = parsed_json(text) {
        law_search_lists_every_hit(a, items, millis);
    }
    assert forall|m: MessageView| #[trigger] a.messages.push(m).drop_last() == a.messages by {
        assert(a.messages.push(m).drop_last() =~= a.messages);
    }
}

/// The command log without the notice of the system that may stand last in it.
pub open spec fn log_without_notice(messages: Seq<MessageView>) -> Seq<MessageView> {
    if messages.len() > 0 && messages.last().role == Role::System {
        messages.drop_last()
    } else {
        messages
    }
}

/// A run with a time limit that succeeds leaves all that it wrote in the
/// command log, of whatever length, without the white space around it; a run
/// that wrote nothing is told of too. The memories are looked at again.
pub proof fn law_output_is_shown_whole(
    a: AppView,
    before: Seq<char>,
    core: Seq<char>,
    behind: Seq<char>,
)
    requires
        around(before, core, behind),
    ensures
        ({
            let s = passed_through(a, PassEndView::Success(before + core + behind));
            let kept = log_without_notice(a.messages);
            &&& s.app.messages.len() == kept.len() + 1
            &&& s.app.messages.drop_last() == kept
            &&& s.app.messages.last().role == Role::Result
            &&& core.len() > 0 ==> s.app.messages.last().content == core
            &&& core.len() == 0 ==> s.app.messages.last().content == "(no output)"@
            &&& same_but_log(s.app, a)
            &&& asks_to_observe(s.app, a, s.work)
        }),
{
    lemma_core(before, core, behind);
    let s = passed_through(a, PassEndView::Success(before + core + behind));
    assert(s.app.messages.drop_last() =~= log_without_notice(a.messages));
}

/// A run with a time limit that does not succeed leaves one error in the
/// command log, which holds the reason; nothing is looked at again.
pub proof fn law_failed_run_is_told(
    a: AppView,
    before: Seq<char>,
    core: Seq<char>,
    behind: Seq<char>,
    secs: u64,
    end: PassEndView,
)
    requires
        around(before, core, behind),
        !(end is Success),
    ensures
        ({
            let text = before + core + behind;
            let s = passed_through(a, end);
            let kept = log_without_notice(a.messages);
            let last = s.app.messages.last().content;
            &&& s.app.messages.len() == kept.len() + 1
            &&& s.app.messages.drop_last() == kept
            &&& s.app.messages.last().role == Role::Error
            &&& end == PassEndView::Failure(text) ==> has_part(last, core)
            &&& end == PassEndView::NotStarted(text) ==> has_part(last, text)
            &&& end == PassEndView::NotWaited(text) ==> has_part(last, text)
            &&& end == PassEndView::NotCollected(text) ==> last == text
            &&& end == PassEndView::TimedOut(secs) ==> last == "timeout after "@ + digits(
                secs as nat,
            ) + "s"@
            &&& s.work.len() == 0
            &&& s.app == (AppView { messages: s.app.messages, ..a })
        }),
{
    lemma_core(before, core, behind);
    let text = before + core + behind;
    lemma_ends_with("Error: "@, core);
    lemma_ends_with("spawn: "@, text);
    lemma_ends_with("wait: "@, text);
    let s = passed_through(a, end);
    assert(s.app.messages.drop_last() =~= log_without_notice(a.messages));
}

/// A run is over its limit once more than that many seconds have passed, and
/// not before; a longer limit is never passed sooner.
pub proof fn law_limit_counts_seconds(elapsed: u64, secs: u64, longer: u64)
    ensures
        elapsed <= secs * 1_000_000_000 ==> !over_limit(elapsed, secs),
        elapsed > secs * 1_000_000_000 ==> over_limit(elapsed, secs),
        secs <= longer && over_limit(elapsed, longer) ==> over_limit(elapsed, secs),
{
}

// ---------------------------------------------------------------------------
// What a line is taken for
// ---------------------------------------------------------------------------

proof fn lemma_differs(s: Seq<char>, p: Seq<char>, i: int)
    requires
        0 <= i < s.len(),
        0 <= i < p.len(),
        s[i] != p[i],
    ensures
        !has_prefix(s, p),
        s != p,
{
    if has_prefix(s, p) {
        assert(s.subrange(0, p.len() as int)[i] == s[i]);
    }
}

proof fn lemma_other_length(s: Seq<char>, p: Seq<char>)
    requires
        s.len() != p.len(),
    ensures
        s != p,
{
}

/// Whether a text can stand behind a verb: in quotation marks where it has
/// none at its ends itself, and without them where it is not empty and has no
/// white space at its ends either.
pub open spec fn sound(core: Seq<char>, quoted: bool) -> bool {
    &&& core.len() > 0 ==> core[0] != '"' && core.last() != '"'
    &&& !quoted ==> core.len() > 0 && !is_white(core[0]) && !is_white(core.last())
}

/// Whether a text is nothing but white space.
pub open spec fn blank(s: Seq<char>) -> bool {
    forall|i: int| 0 <= i < s.len() ==> is_white(#[trigger] s[i])
}

/// What stands behind a verb: a text, with white space around it, and in
/// quotation marks or not.
pub open spec fn written(
    before: Seq<char>,
    core: Seq<char>,
    behind: Seq<char>,
    quoted: bool,
) -> Seq<char> {
    before + (if quoted {
        seq!['"'] + core + seq!['"']
    } else {
        core
    }) + behind
}

proof fn lemma_written(before: Seq<char>, core: Seq<char>, behind: Seq<char>, quoted: bool)
    requires
        blank(before),
        blank(behind),
        sound(core, quoted),
    ensures
        trimmed(Edge::Quote, trimmed(Edge::White, written(before, core, behind, quoted))) == core,
{
    if quoted {
        let inner = seq!['"'] + core + seq!['"'];
        assert(inner[0] == '"');
        assert(inner.last() == '"');
        lemma_core(before, inner, behind);
        assert(seq!['"'][0] == '"');
        law_trimming_leaves_the_core(Edge::Quote, seq!['"'], core, seq!['"']);
    } else {
        lemma_core(before, core, behind);
        let none: Seq<char> = seq![];
        law_trimming_leaves_the_core(Edge::Quote, none, core, none);
        assert(none + core + none =~= core);
    }
}

/// `remember` stores, and `recall` searches for, what stands behind the verb,
/// without the white space and the quotation marks around it.
pub proof fn law_remember_and_recall_take_their_text(
    before: Seq<char>,
    core: Seq<char>,
    behind: Seq<char>,
    quoted: bool,
)
    requires
        blank(before),
        blank(behind),
        sound(core, quoted),
    ensures
        command_of("remember "@ + written(before, core, behind, quoted)) == CommandView::Remember(
            core,
        ),
        command_of("recall "@ + written(before, core, behind, quoted)) == CommandView::Recall(core),
{
    reveal_strlit("remember ");
    reveal_strlit("recall ");
    let rest = written(before, core, behind, quoted);
    lemma_written(before, core, behind, quoted);
    law_prefix_and_rest(rest, "remember "@, rest);
    law_prefix_and_rest(rest, "recall "@, rest);
    lemma_differs("recall "@ + rest, "remember "@, 2);
}

/// `forget` deletes what stands behind the verb, without the white space
/// around it; quotation marks stay.
pub proof fn law_forget_takes_its_text(before: Seq<char>, core: Seq<char>, behind: Seq<char>)
    requires
        around(before, core, behind),
    ensures
        command_of("forget "@ + (before + core + behind)) == CommandView::Forget(core),
{
    reveal_strlit("remember ");
    reveal_strlit("recall ");
    reveal_strlit("forget ");
    let rest = before + core + behind;
    lemma_core(before, core, behind);
    law_prefix_and_rest(rest, "forget "@, rest);
    lemma_differs("forget "@ + rest, "remember "@, 0);
    lemma_differs("forget "@ + rest, "recall "@, 0);
}

/// A dream is deep unless the line says lite and nothing else.
pub proof fn law_dream_is_deep_unless_lite(
    before: Seq<char>,
    core: Seq<char>,
    behind: Seq<char>,
)
    requires
        around(before, core, behind),
    ensures
        command_of("dream "@ + (before + core + behind)) == CommandView::Dream(
            if core == "lite"@ {
                "lite"@
            } else {
                "deep"@
            },
        ),
{
    reveal_strlit("remember ");
    reveal_strlit("recall ");
    reveal_strlit("forget ");
    reveal_strlit("dream ");
    let rest = before + core + behind;
    lemma_core(before, core, behind);
    law_prefix_and_rest(rest, "dream "@, rest);
    lemma_differs("dream "@ + rest, "remember "@, 0);
    lemma_differs("dream "@ + rest, "recall "@, 0);
    lemma_differs("dream "@ + rest, "forget "@, 0);
}

proof fn lemma_not_the_first_verbs(s: Seq<char>)
    requires
        s.len() > 1,
        s[0] == 'a' || s[0] == 'b' || s[0] == 'c' || s[0] == 'i' || s[0] == 'v' || s[0] == 'h' || (
        s[0] == 's' && s[1] != 't'),
    ensures
        !has_prefix(s, "remember "@),
        !has_prefix(s, "recall "@),
        !has_prefix(s, "forget "@),
        s != "dream"@ && !has_prefix(s, "dream "@),
        s != "status"@ && s != "observe"@,
        s[0] != 'h' ==> s != "hear"@ && !has_prefix(s, "hear "@),
{
    reveal_strlit("remember ");
    reveal_strlit("recall ");
    reveal_strlit("forget ");
    reveal_strlit("dream");
    reveal_strlit("dream ");
    reveal_strlit("status");
    reveal_strlit("observe");
    reveal_strlit("hear");
    reveal_strlit("hear ");
    lemma_differs(s, "remember "@, 0);
    lemma_differs(s, "recall "@, 0);
    lemma_differs(s, "forget "@, 0);
    lemma_differs(s, "dream"@, 0);
    lemma_differs(s, "dream "@, 0);
    lemma_differs(s, "status"@, if s[0] == 's' { 1 } else { 0 });
    lemma_differs(s, "observe"@, 0);
    if s[0] != 'h' {
        lemma_differs(s, "hear"@, 0);
        lemma_differs(s, "hear "@, 0);
    }
}

/// `ask` puts the question that stands behind the verb to the binary, for ten
/// minutes at most, and `search` looks for what stands behind it, for half a
/// minute at most.
pub proof fn law_ask_and_search_pass_their_text(
    before: Seq<char>,
    core: Seq<char>,
    behind: Seq<char>,
    quoted: bool,
)
    requires
        blank(before),
        blank(behind),
        sound(core, quoted),
    ensures
        command_of("ask "@ + written(before, core, behind, quoted)) == (CommandView::Passthrough {
            label: "ask \""@ + core + "\""@,
            args: seq!["ask"@, "--no-tools"@, "--quiet-tools"@, core],
            timeout_secs: 600,
        }),
        command_of("search "@ + written(before, core, behind, quoted)) == (
        CommandView::Passthrough {
            label: "search \""@ + core + "\""@,
            args: seq!["search"@, core],
            timeout_secs: 30,
        }),
{
    reveal_strlit("ask ");
    reveal_strlit("search ");
    let rest = written(before, core, behind, quoted);
    lemma_written(before, core, behind, quoted);
    law_prefix_and_rest(rest, "ask "@, rest);
    law_prefix_and_rest(rest, "search "@, rest);
    lemma_not_the_first_verbs("ask "@ + rest);
    lemma_not_the_first_verbs("search "@ + rest);
    lemma_differs("search "@ + rest, "ask "@, 0);
}

/// `boost` passes the id behind the verb on to the binary, for half a minute
/// at most.
pub proof fn law_boost_passes_its_id(before: Seq<char>, core: Seq<char>, behind: Seq<char>)
    requires
        around(before, core, behind),
    ensures
        command_of("boost "@ + (before + core + behind)) == (CommandView::Passthrough {
            label: "boost "@ + core,
            args: seq!["boost"@, core],
            timeout_secs: 30,
        }),
{
    reveal_strlit("ask ");
    reveal_strlit("search ");
    reveal_strlit("boost ");
    let rest = before + core + behind;
    let s = "boost "@ + rest;
    lemma_core(before, core, behind);
    law_prefix_and_rest(rest, "boost "@, rest);
    lemma_not_the_first_verbs(s);
    lemma_differs(s, "ask "@, 0);
    lemma_differs(s, "search "@, 0);
}

/// `hear` passes the words behind the verb on to the binary, for five minutes
/// at most; with nothing behind it, it says how it is used.
pub proof fn law_hear_passes_its_words(before: Seq<char>, core: Seq<char>, behind: Seq<char>)
    requires
        around(before, core, behind),
    ensures
        core.len() > 0 ==> command_of("hear "@ + (before + core + behind)) == (
        CommandView::Passthrough {
            label: "hear "@ + core,
            args: seq!["hear"@] + words(core),
            timeout_secs: 300,
        }),
        core.len() == 0 ==> command_of("hear "@ + (before + core + behind)) is HearUsage,
{
    reveal_strlit("hear ");
    reveal_strlit("hear");
    let rest = before + core + behind;
    let s = "hear "@ + rest;
    law_prefix_and_rest(rest, "hear "@, rest);
    lemma_not_the_first_verbs(s);
    let wider = seq![' '] + before;
    assert(after(s, "hear"@) =~= wider + core + behind);
    assert forall|i: int| 0 <= i < wider.len() implies is_white(#[trigger] wider[i]) by {
        if i > 0 {
            assert(wider[i] == before[i - 1]);
        }
    }
    lemma_core(wider, core, behind);
}

proof fn lemma_not_the_middle_verbs(s: Seq<char>)
    requires
        s.len() > 1,
        s[0] == 'c' || s[0] == 'i' || s[0] == 'v' || (s[0] == 's' && s[1] == 'w'),
    ensures
        !has_prefix(s, "ask "@),
        !has_prefix(s, "search "@),
        !has_prefix(s, "boost "@),
        s != "assess"@ && s != "stats"@,
        s[0] != 'c' ==> s != "cmf"@,
        s[0] != 'i' ==> s != "invariant"@ && !has_prefix(s, "invariant "@),
        s[0] != 'v' ==> !has_prefix(s, "voice"@),
{
    reveal_strlit("ask ");
    reveal_strlit("search ");
    reveal_strlit("boost ");
    reveal_strlit("assess");
    reveal_strlit("stats");
    reveal_strlit("cmf");
    reveal_strlit("invariant");
    reveal_strlit("invariant ");
    reveal_strlit("voice");
    lemma_differs(s, "ask "@, 0);
    lemma_differs(s, "search "@, if s[0] == 's' { 1 } else { 0 });
    lemma_differs(s, "boost "@, 0);
    lemma_differs(s, "assess"@, 0);
    lemma_differs(s, "stats"@, if s[0] == 's' { 1 } else { 0 });
    if s[0] != 'c' {
        lemma_differs(s, "cmf"@, 0);
    }
    if s[0] != 'i' {
        lemma_differs(s, "invariant"@, 0);
        lemma_differs(s, "invariant "@, 0);
    }
    if s[0] != 'v' {
        lemma_differs(s, "voice"@, 0);
    }
}

/// A line that begins with `invariant`, `voice` or `swarm` is passed on to the
/// binary word by word, whatever stands behind the verb.
pub proof fn law_lines_are_passed_on_whole(rest: Seq<char>)
    ensures
        command_of("invariant "@ + rest) == (CommandView::Passthrough {
            label: "invariant "@ + rest,
            args: seq!["invariant"@] + words(rest),
            timeout_secs: 60,
        }),
        command_of("voice "@ + rest) == (CommandView::Passthrough {
            label: "voice "@ + rest,
            args: seq!["voice"@] + words(rest),
            timeout_secs: 300,
        }),
        command_of("swarm "@ + rest) == (CommandView::Passthrough {
            label: "swarm "@ + rest,
            args: seq!["swarm"@] + words(rest),
            timeout_secs: 60,
        }),
{
    reveal_strlit("invariant ");
    reveal_strlit("voice ");
    reveal_strlit("voice");
    reveal_strlit("swarm ");
    reveal_strlit("invariant");
    reveal_strlit("swarm");
    let i = "invariant "@ + rest;
    let v = "voice "@ + rest;
    let s = "swarm "@ + rest;
    law_prefix_and_rest(rest, "invariant "@, rest);
    law_prefix_and_rest(rest, "swarm "@, rest);
    law_prefix_and_rest(rest, "voice"@, " "@ + rest);
    reveal_strlit(" ");
    assert(v =~= "voice"@ + (" "@ + rest));
    lemma_not_the_first_verbs(i);
    lemma_not_the_first_verbs(v);
    lemma_not_the_first_verbs(s);
    lemma_not_the_middle_verbs(i);
    lemma_not_the_middle_verbs(v);
    lemma_not_the_middle_verbs(s);
    law_word_alone("invariant"@);
    law_word_alone("voice"@);
    law_word_alone("swarm"@);
    law_words_part_at_white_space("invariant"@, ' ', rest);
    law_words_part_at_white_space("voice"@, ' ', rest);
    law_words_part_at_white_space("swarm"@, ' ', rest);
    assert("invariant"@.push(' ') + rest =~= i);
    assert("voice"@.push(' ') + rest =~= v);
    assert("swarm"@.push(' ') + rest =~= s);
}

/// A line that begins with none of the letters that a verb begins with is no
/// command: it is for the agent.
pub proof fn law_other_letters_are_for_the_agent(line: Seq<char>)
    requires
        line.len() > 0,
        line[0] != 'r' && line[0] != 'f' && line[0] != 'd' && line[0] != 's' && line[0] != 'o'
            && line[0] != 'h' && line[0] != 'a' && line[0] != 'b' && line[0] != 'c' && line[0] != 'i'
            && line[0] != 'v' && line[0] != '?' && line[0] != 'q' && line[0] != 'e',
    ensures
        command_of(line) is Chat,
{
    reveal_strlit("remember ");
    reveal_strlit("recall ");
    reveal_strlit("forget ");
    reveal_strlit("dream");
    reveal_strlit("dream ");
    reveal_strlit("status");
    reveal_strlit("observe");
    reveal_strlit("hear");
    reveal_strlit("hear ");
    reveal_strlit("ask ");
    reveal_strlit("search ");
    reveal_strlit("boost ");
    reveal_strlit("assess");
    reveal_strlit("stats");
    reveal_strlit("cmf");
    reveal_strlit("invariant");
    reveal_strlit("invariant ");
    reveal_strlit("voice");
    reveal_strlit("swarm");
    reveal_strlit("swarm ");
    reveal_strlit("help");
    reveal_strlit("?");
    reveal_strlit("quit");
    reveal_strlit("exit");
    reveal_strlit("q");
    assert forall|p: Seq<char>| #![trigger has_prefix(line, p)] p.len() > 0 && p[0] != line[0] implies
        !has_prefix(line, p) by {
        lemma_differs(line, p, 0);
    }
}

// ---------------------------------------------------------------------------
// What a command runs
// ---------------------------------------------------------------------------

/// Storing, searching and deleting run the binary once, with the verb and the
/// text as it is, and are announced in one message that quotes the text.
pub proof fn law_commands_run_with_their_text(a: AppView, t: Seq<char>, now: u64)
    ensures
        ({
            let s = commanded(a, CommandView::Remember(t), now);
            &&& s.work == seq![EffectView { task: Task::Remember, args: seq!["remember"@, t] }]
            &&& one_more(s.app, a, Role::User) && s.app == (AppView {
                messages: s.app.messages,
                ..a
            })
            &&& s.app.messages.last().content == "remember \""@ + t + "\""@
        }),
        ({
            let s = commanded(a, CommandView::Recall(t), now);
            &&& s.work == seq![
                EffectView { task: Task::Recall, args: seq!["recall"@, t, "--top-k"@, "5"@] },
            ]
            &&& one_more(s.app, a, Role::User) && s.app == (AppView {
                messages: s.app.messages,
                ..a
            })
            &&& s.app.messages.last().content == "recall \""@ + t + "\""@
        }),
        ({
            let s = commanded(a, CommandView::Forget(t), now);
            &&& s.work == seq![EffectView { task: Task::Forget, args: seq!["forget"@, t] }]
            &&& one_more(s.app, a, Role::User) && s.app == (AppView {
                messages: s.app.messages,
                ..a
            })
            &&& s.app.messages.last().content == "forget \""@ + t + "\""@
        }),
{
    assert forall|m: MessageView| #[trigger] a.messages.push(m).drop_last() == a.messages by {
        assert(a.messages.push(m).drop_last() =~= a.messages);
    }
}

/// A run with a time limit gets its arguments as they are, and is announced by
/// its label and a notice that tells the limit.
pub proof fn law_passed_on_command_runs(
    a: AppView,
    label: Seq<char>,
    args: Seq<Seq<char>>,
    timeout_secs: u64,
    now: u64,
)
    ensures
        ({
            let s = commanded(a, CommandView::Passthrough { label, args, timeout_secs }, now);
            let n = a.messages.len();
            &&& s.work == seq![EffectView { task: Task::Passthrough(timeout_secs), args }]
            &&& s.app.messages.len() == n + 2
            &&& s.app.messages.subrange(0, n as int) == a.messages
            &&& s.app.messages[n as int] == (MessageView { role: Role::User, content: label })
            &&& s.app.messages.last().role == Role::System
            &&& has_part(s.app.messages.last().content, digits(timeout_secs as nat))
            &&& s.app == (AppView { messages: s.app.messages, ..a })
        }),
{
    let s = commanded(a, CommandView::Passthrough { label, args, timeout_secs }, now);
    assert(s.app.messages.subrange(0, a.messages.len() as int) =~= a.messages);
    law_part_of_a_sum("Running... (up to "@, digits(timeout_secs as nat), "s)"@);
}

/// Asking for help opens the overlay, asking to quit leaves, asking how to
/// hear is answered with an error: none of them runs anything.
pub proof fn law_commands_that_run_nothing(a: AppView, now: u64)
    ensures
        commanded(a, CommandView::Help, now).app == (AppView { show_help: true, ..a }),
        commanded(a, CommandView::Help, now).work.len() == 0,
        commanded(a, CommandView::Quit, now).app == (AppView { should_quit: true, ..a }),
        commanded(a, CommandView::Quit, now).work.len() == 0,
        one_more(commanded(a, CommandView::HearUsage, now).app, a, Role::Error),
        commanded(a, CommandView::HearUsage, now).work.len() == 0,
{
    let h = commanded(a, CommandView::HearUsage, now).app;
    assert(h.messages.drop_last() =~= a.messages);
}

/// Asking for the status asks for a status and an observation, whichever is
/// not awaited already, and says so.
pub proof fn law_refresh_asks_for_both(a: AppView, now: u64)
    ensures
        ({
            let s = commanded(a, CommandView::Refresh, now);
            &&& !a.status_pending && !a.observe_pending ==> s.work == seq![
                EffectView { task: Task::Status, args: seq!["status"@, "--envelope"@] },
                EffectView { task: Task::Observe, args: seq!["observe"@, "--json"@] },
            ] && s.app.last_status_poll == now
            &&& a.status_pending && a.observe_pending ==> s.work.len() == 0
            &&& s.work == refreshed(a, now).work
            &&& s.app.status_pending && s.app.observe_pending
            &&& one_more(s.app, a, Role::System)
            &&& s.app.status == a.status && s.app.memories == a.memories
        }),
{
    let s = commanded(a, CommandView::Refresh, now);
    assert(s.app.messages.drop_last() =~= a.messages);
    if !a.status_pending && !a.observe_pending {
        assert(s.work =~= seq![
            EffectView { task: Task::Status, args: seq!["status"@, "--envelope"@] },
            EffectView { task: Task::Observe, args: seq!["observe"@, "--json"@] },
        ]);
    }
}

/// Asking for a dream runs one in that mode, shows it as running from now on,
/// and asks for the stream of the bus; while one runs, it says so and runs
/// nothing.
pub proof fn law_dream_command_runs_one_dream(a: AppView, mode: Seq<char>, now: u64)
    ensures
        ({
            let s = commanded(a, CommandView::Dream(mode), now);
            let n = a.messages.len();
            &&& a.dreamer.busy ==> {
                &&& one_more(s.app, a, Role::System)
                &&& s.work.len() == 0
                &&& s.app == (AppView { messages: s.app.messages, ..a })
            }
            &&& !a.dreamer.busy ==> {
                &&& s.app.messages.len() == n + 2
                &&& s.app.messages.subrange(0, n as int) == a.messages
                &&& s.app.messages[n as int] == (MessageView {
                    role: Role::User,
                    content: "dream --mode "@ + mode,
                })
                &&& s.app.messages.last().role == Role::System
                &&& s.app.dreamer.busy
                &&& s.app.dreamer.run == (crate::dream::DreamRunView::Running {
                    mode,
                    started: now,
                })
                &&& s.app.live == bus_wanted(a.live)
                &&& s.work == bus_work(a.live) + seq![
                    EffectView { task: Task::Dream, args: seq!["dream"@, "--mode"@, mode] },
                ]
            }
        }),
{
    let s = commanded(a, CommandView::Dream(mode), now);
    if a.dreamer.busy {
        assert(s.app.messages.drop_last() =~= a.messages);
    } else {
        assert(s.app.messages.subrange(0, a.messages.len() as int) =~= a.messages);
    }
}

proof fn lemma_command_and_bar(b: AppView, command: CommandView, now: u64)
    ensures
        ({
            let c = commanded(AppView { bar: cleared(b.bar), scroll_offset: 0, ..b }, command, now);
            let d = commanded(b, command, now);
            c.work == d.work && c.app == line_done(d.app)
        }),
{
    let c = commanded(AppView { bar: cleared(b.bar), scroll_offset: 0, ..b }, command, now);
    let d = commanded(b, command, now);
    assert(c.work =~= d.work);
    assert(c.app =~= line_done(d.app));
}

proof fn lemma_command_line(a: AppView, line: Seq<char>, command: CommandView, now: u64)
    requires
        a.active_tab != CHAT_TAB,
        trimmed(Edge::White, a.bar.text) == line,
        line.len() > 0,
        command == command_of(without_slash(line)),
        !(command is Chat),
    ensures
        submitted(a, now) == line_done_after(
            commanded(AppView { bar: recorded(a.bar, line), ..a }, command, now),
        ),
{
    reveal(submitted);
}

/// A command typed on a tab other than the chat tab is carried out, with or
/// without a slash before it: the bar is empty then, the view is back at the
/// bottom, and the line is in the history.
pub proof fn law_typed_command_is_carried_out(a: AppView, core: Seq<char>, now: u64)
    requires
        a.active_tab != CHAT_TAB,
        a.bar.text == core || a.bar.text == "/"@ + core,
        core.len() > 0,
        core[0] != '/',
        !is_white(core[0]),
        !is_white(core.last()),
        !(command_of(core) is Chat),
    ensures
        ({
            let s = submitted(a, now);
            let b = AppView { bar: s.app.bar, scroll_offset: 0, ..a };
            let c = commanded(b, command_of(core), now);
            &&& s.work == c.work
            &&& s.app == c.app
            &&& s.app.bar.text.len() == 0 && s.app.bar.cursor == 0
            &&& s.app.bar.history == a.bar.history.push(a.bar.text)
            &&& s.app.bar.history_idx is None
        }),
{
    reveal_strlit("/");
    let text = a.bar.text;
    let none: Seq<char> = seq![];
    assert(!is_white(text[0]));
    assert(text.last() == core.last());
    lemma_core(none, text, none);
    assert(none + text + none =~= text);
    if text == "/"@ + core {
        law_prefix_and_rest(text, "/"@, core);
    }
    if text == core {
        lemma_differs(core, "/"@, 0);
    }
    assert(without_slash(text) == core);
    let command = command_of(core);
    let b = AppView { bar: recorded(a.bar, text), ..a };
    lemma_command_line(a, text, command, now);
    lemma_command_and_bar(b, command, now);
    lemma_commands_only_add(b, command, now);
}

// ---------------------------------------------------------------------------
// Turns
// ---------------------------------------------------------------------------

/// A message of the user becomes the last line of the conversation as it is,
/// and an answer is awaited. It is written to the chat child at once where
/// that is attached; else it waits for it, and nothing is written.
pub proof fn law_message_reaches_the_child(a: AppView, line: Seq<char>)
    ensures
        ({
            let s = talked(a, line);
            let c = s.app.chat;
            &&& c.lines == a.chat.lines.push(ChatLineView { who: ChatWho::User, text: line })
            &&& c.pending == Pending::Turn
            &&& s.app == (AppView { chat: c, ..a })
            &&& a.chat.child matches Some(h) ==> {
                &&& c.child == a.chat.child
                &&& h.attached ==> s.work == seq![
                    EffectView { task: Task::Send, args: seq![line] },
                ] && c.waiting == a.chat.waiting
                &&& !h.attached ==> s.work.len() == 0 && c.waiting == Some(line)
            }
            &&& a.chat.child is None ==> {
                &&& s.work == seq![
                    EffectView { task: Task::Chat, args: seq!["chat"@, "--json"@] },
                ]
                &&& c.waiting == Some(line)
                &&& c.child matches Some(h) && !h.attached && !h.ready
            }
        }),
{
    let s = talked(a, line);
    if let Some(h) = a.chat.child {
        if h.attached {
            assert(s.work =~= seq![EffectView { task: Task::Send, args: seq![line] }]);
        }
    } else {
        assert(s.work =~= seq![EffectView { task: Task::Chat, args: seq!["chat"@, "--json"@] }]);
    }
}

/// On the chat tab a slash command of a plugin runs that plugin with what
/// stands behind it, and is shown as said; any other line goes to the agent as
/// it is. The bar is empty then, and the view back at the bottom.
pub proof fn law_chat_line_goes_where_it_belongs(
    a: AppView,
    before: Seq<char>,
    core: Seq<char>,
    behind: Seq<char>,
    line: Seq<char>,
)
    requires
        a.chat.pending == Pending::Idle,
        around(before, core, behind),
        !has_prefix(line, "/code "@),
        !has_prefix(line, "/topus "@),
    ensures
        ({
            let s = chat_line_entered(a, "/code "@ + (before + core + behind));
            &&& s.work == seq![EffectView { task: Task::Plugin(Plugin::Code), args: seq![core] }]
            &&& s.app.chat.lines == a.chat.lines.push(
                ChatLineView { who: ChatWho::User, text: "/code"@ + " "@ + core },
            )
            &&& s.app.chat == (ChatView { lines: s.app.chat.lines, ..a.chat })
            &&& s.app.bar.text.len() == 0 && s.app.scroll_offset == 0
        }),
        ({
            let s = chat_line_entered(a, "/topus "@ + (before + core + behind));
            &&& s.work == seq![EffectView { task: Task::Plugin(Plugin::Topus), args: seq![core] }]
            &&& s.app.chat.lines == a.chat.lines.push(
                ChatLineView { who: ChatWho::User, text: "/topus"@ + " "@ + core },
            )
            &&& s.app.chat == (ChatView { lines: s.app.chat.lines, ..a.chat })
            &&& s.app.bar.text.len() == 0 && s.app.scroll_offset == 0
        }),
        ({
            let s = chat_line_entered(a, line);
            &&& s.work == talked(a, line).work
            &&& s.app.chat == talked(a, line).app.chat
            &&& s.app.bar.text.len() == 0 && s.app.scroll_offset == 0
        }),
{
    reveal_strlit("/code ");
    reveal_strlit("/topus ");
    let rest = before + core + behind;
    lemma_core(before, core, behind);
    law_prefix_and_rest(rest, "/code "@, rest);
    law_prefix_and_rest(rest, "/topus "@, rest);
    lemma_differs("/topus "@ + rest, "/code "@, 1);
}

/// A line that is no command, entered on a tab other than the chat tab, goes to
/// the agent as if it had been entered there, and empties the bar; while an
/// answer is awaited it goes nowhere.
pub proof fn law_other_line_is_a_message(a: AppView, line: Seq<char>, now: u64)
    requires
        a.active_tab != CHAT_TAB,
        trimmed(Edge::White, a.bar.text) == line,
        line.len() > 0,
        command_of(without_slash(line)) is Chat,
    ensures
        ({
            let s = submitted(a, now);
            &&& a.chat.pending == Pending::Idle ==> s.work == talked(a, line).work && s.app.chat
                == talked(a, line).app.chat && s.app.scroll_offset == 0
            &&& a.chat.pending != Pending::Idle ==> s.work.len() == 0 && s.app.chat == a.chat
            &&& s.app.active_tab == 5
            &&& s.app.bar.text.len() == 0 && s.app.bar.cursor == 0
            &&& s.app.messages == a.messages && s.app.dreamer == a.dreamer && s.app.live == a.live
        }),
{
    reveal(submitted);
}

/// On the chat tab a line is entered without the white space around it, and the
/// bar is empty then, whether or not an answer is awaited.
pub proof fn law_chat_line_is_entered(a: AppView, line: Seq<char>, now: u64)
    requires
        a.active_tab == 5,
        trimmed(Edge::White, a.bar.text) == line,
        line.len() > 0,
    ensures
        ({
            let s = submitted(a, now);
            let b = AppView { bar: recorded(a.bar, line), ..a };
            &&& s == chat_line_entered(b, line)
            &&& s.app.bar.text.len() == 0 && s.app.bar.cursor == 0
            &&& s.app.active_tab == 5
            &&& s.app.messages == a.messages && s.app.live == a.live
        }),
{
    reveal(submitted);
}

/// Without a chat child a message becomes a one-shot question in the session
/// of the dashboard, and its answer is awaited.
pub proof fn law_question_without_a_child(c: ChatView, message: Seq<char>)
    requires
        c.child is None,
    ensures
        turn_work(c, message) == seq![
            EffectView {
                task: Task::Ask,
                args: seq!["ask"@, "--session"@, "kannaka-tui"@, "--quiet-tools"@, message],
            },
        ],
        turn_routed(c, message) == (ChatView { pending: Pending::Ask, ..c }),
{
}

} // verus!

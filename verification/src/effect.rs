//! What the program around the library is asked to do.

use crate::text::texts;
use vstd::prelude::*;

verus! {

/// A program that a slash command of the chat tab runs.
#[derive(Clone, Copy, Debug, PartialEq, Eq, Structural)]
pub enum Plugin {
    Code,
    Topus,
}

impl Plugin {
    /// The name of the program.
    pub open spec fn program(self) -> Seq<char> {
        match self {
            Plugin::Code => "kannaka-code"@,
            Plugin::Topus => "kannaktopus"@,
        }
    }

    /// The slash command.
    pub open spec fn slash(self) -> Seq<char> {
        match self {
            Plugin::Code => "/code"@,
            Plugin::Topus => "/topus"@,
        }
    }

    /// The name of the program.
    pub fn binary(self) -> (r: &'static str)
        ensures
            r@ == self.program(),
    {
        match self {
            Plugin::Code => "kannaka-code",
            Plugin::Topus => "kannaktopus",
        }
    }

    /// The slash command.
    pub fn verb(self) -> (r: &'static str)
        ensures
            r@ == self.slash(),
    {
        match self {
            Plugin::Code => "/code",
            Plugin::Topus => "/topus",
        }
    }
}

/// A kind of work.
#[derive(Clone, Copy, Debug, PartialEq, Eq, Structural)]
pub enum Task {
    /// Start the binary and stream its lines as frames of the bus.
    Bus,
    /// Run the binary in the background for a status.
    Status,
    /// Run the binary in the background for an observation.
    Observe,
    /// Run the binary in the background for a dream.
    Dream,
    /// Start the binary as the chat child.
    Chat,
    /// Write the argument as a line to the chat child.
    Send,
    /// Run the binary in the background for a one-shot question.
    Ask,
    /// Run a plugin with the argument, if it can be found.
    Plugin(Plugin),
    /// Run the binary and wait, to store a memory.
    Remember,
    /// Run the binary and wait, to search by resonance.
    Recall,
    /// Run the binary and wait, to delete a memory.
    Forget,
    /// Run the binary and wait, for so many seconds at most.
    Passthrough(u64),
}

/// Work to be done, with its arguments.
pub struct Effect {
    pub task: Task,
    pub args: Vec<String>,
}

/// The model of an [`Effect`].
pub struct EffectView {
    pub task: Task,
    pub args: Seq<Seq<char>>,
}

impl View for Effect {
    type V = EffectView;

    open spec fn view(&self) -> EffectView {
        EffectView { task: self.task, args: texts(self.args@) }
    }
}

/// The model of work with its arguments.
pub open spec fn work(task: Task, args: Seq<Seq<char>>) -> EffectView {
    EffectView { task, args }
}

/// The models of a list of effects.
pub open spec fn effects(v: Seq<Effect>) -> Seq<EffectView> {
    v.map_values(|e: Effect| e@)
}

/// No effect.
pub fn no_effects() -> (r: Vec<Effect>)
    ensures
        effects(r@) == Seq::<EffectView>::empty(),
{
    let r: Vec<Effect> = Vec::new();
    assert(effects(r@) =~= Seq::<EffectView>::empty());
    r
}

/// One effect.
pub fn one_effect(task: Task, args: Vec<String>) -> (r: Vec<Effect>)
    ensures
        effects(r@) == seq![work(task, texts(args@))],
{
    let mut r = no_effects();
    push_effect(&mut r, task, args);
    assert(effects(r@) =~= seq![work(task, texts(args@))]);
    r
}

/// Adds an effect at the end of a list.
pub fn push_effect(v: &mut Vec<Effect>, task: Task, args: Vec<String>)
    ensures
        effects(final(v)@) == effects(old(v)@).push(work(task, texts(args@))),
{
    let ghost before = v@;
    v.push(Effect { task, args });
    assert(effects(v@) =~= effects(before).push(work(task, texts(args@))));
}

/// Adds effects at the end of a list.
pub fn append_effects(v: &mut Vec<Effect>, more: Vec<Effect>)
    ensures
        effects(final(v)@) == effects(old(v)@) + effects(more@),
{
    let ghost before = v@;
    let ghost added = more@;
    let mut rest = more;
    v.append(&mut rest);
    assert(effects(v@) =~= effects(before) + effects(added));
}

} // verus!

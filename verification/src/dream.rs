//! The dream that was asked for here.

use crate::effect::{effects, no_effects, one_effect, work, Effect, EffectView, Task};
use crate::reply::text_reply;
use crate::text::{push_text, texts, two_texts};
use vstd::prelude::*;

verus! {

/// How the dream asked for last stands. Times are in nanoseconds.
pub enum DreamRunState {
    Idle,
    Running { mode: String, started: u64 },
    Done { mode: String, took: u64, summary: String },
    Failed { mode: String, error: String },
}

/// The model of a [`DreamRunState`].
pub enum DreamRunView {
    Idle,
    Running { mode: Seq<char>, started: u64 },
    Done { mode: Seq<char>, took: u64, summary: Seq<char> },
    Failed { mode: Seq<char>, error: Seq<char> },
}

impl View for DreamRunState {
    type V = DreamRunView;

    open spec fn view(&self) -> DreamRunView {
        match *self {
            DreamRunState::Idle => DreamRunView::Idle,
            DreamRunState::Running { mode, started } => DreamRunView::Running {
                mode: mode@,
                started,
            },
            DreamRunState::Done { mode, took, summary } => DreamRunView::Done {
                mode: mode@,
                took,
                summary: summary@,
            },
            DreamRunState::Failed { mode, error } => DreamRunView::Failed {
                mode: mode@,
                error: error@,
            },
        }
    }
}

/// The local dream.
pub struct Dreamer {
    pub run: DreamRunState,
    /// Whether a dream is running.
    pub busy: bool,
}

/// The model of a [`Dreamer`].
pub struct DreamerView {
    pub run: DreamRunView,
    pub busy: bool,
}

impl View for Dreamer {
    type V = DreamerView;

    open spec fn view(&self) -> DreamerView {
        DreamerView { run: self.run@, busy: self.busy }
    }
}

/// What is heard of a running dream.
pub enum DreamNews {
    /// Nothing yet.
    Nothing,
    /// Its answer.
    Reply(Result<String, String>),
    /// That there will be none.
    Lost,
}

/// The model of [`DreamNews`].
pub enum DreamNewsView {
    Nothing,
    Reply(Result<Seq<char>, Seq<char>>),
    Lost,
}

impl View for DreamNews {
    type V = DreamNewsView;

    open spec fn view(&self) -> DreamNewsView {
        match *self {
            DreamNews::Nothing => DreamNewsView::Nothing,
            DreamNews::Reply(r) => DreamNewsView::Reply(text_reply(r)),
            DreamNews::Lost => DreamNewsView::Lost,
        }
    }
}

/// The local dream once a dream has been asked for; one that is running goes
/// on alone.
pub open spec fn dream_wanted(d: DreamerView, mode: Seq<char>, now: u64) -> DreamerView {
    if d.busy {
        d
    } else {
        DreamerView { run: DreamRunView::Running { mode, started: now }, busy: true }
    }
}

/// The work that a dream calls for, unless one is running.
pub open spec fn dream_work(d: DreamerView, mode: Seq<char>) -> Seq<EffectView> {
    if d.busy {
        seq![]
    } else {
        seq![work(Task::Dream, seq!["dream"@, "--mode"@, mode])]
    }
}

/// The time from one moment to another that is not before it.
pub open spec fn elapsed(from: u64, to: u64) -> u64 {
    if to >= from {
        (to - from) as u64
    } else {
        0
    }
}

/// How a run ends with an answer.
pub open spec fn run_ended(
    run: DreamRunView,
    answer: Result<Seq<char>, Seq<char>>,
    now: u64,
) -> DreamRunView {
    match run {
        DreamRunView::Running { mode, started } => match answer {
            Ok(summary) => DreamRunView::Done { mode, took: elapsed(started, now), summary },
            Err(error) => DreamRunView::Failed { mode, error },
        },
        _ => run,
    }
}

/// The local dream after what was heard of it.
pub open spec fn dream_heard(d: DreamerView, news: DreamNewsView, now: u64) -> DreamerView {
    if !d.busy {
        d
    } else {
        match news {
            DreamNewsView::Nothing => d,
            DreamNewsView::Reply(answer) => DreamerView {
                run: run_ended(d.run, answer, now),
                busy: false,
            },
            DreamNewsView::Lost => DreamerView { run: d.run, busy: false },
        }
    }
}

/// Whether what was heard is that a running dream is done.
pub open spec fn dream_done(d: DreamerView, news: DreamNewsView) -> bool {
    match news {
        DreamNewsView::Reply(answer) => d.busy && answer is Ok,
        _ => false,
    }
}

/// Measures the time from one moment to another.
pub fn since(from: u64, to: u64) -> (r: u64)
    ensures
        r == elapsed(from, to),
{
    if to >= from {
        to - from
    } else {
        0
    }
}

impl Dreamer {
    /// The model of no dream yet.
    pub open spec fn new_view() -> DreamerView {
        DreamerView { run: DreamRunView::Idle, busy: false }
    }

    /// No dream yet.
    pub fn new() -> (r: Dreamer)
        ensures
            r@ == Dreamer::new_view(),
    {
        Dreamer { run: DreamRunState::Idle, busy: false }
    }

    /// Asks for a dream.
    pub fn start_dream(&mut self, mode: &str, now: u64) -> (r: Vec<Effect>)
        ensures
            final(self)@ == dream_wanted(old(self)@, mode@, now),
            effects(r@) == dream_work(old(self)@, mode@),
    {
        if self.busy {
            return no_effects();
        }
        self.run = DreamRunState::Running { mode: mode.to_owned(), started: now };
        self.busy = true;
        let mut args = two_texts("dream", "--mode");
        push_text(&mut args, mode);
        assert(texts(args@) =~= seq!["dream"@, "--mode"@, mode@]);
        one_effect(Task::Dream, args)
    }

    /// Hears of a running dream; says whether it is done.
    pub fn hear(&mut self, news: DreamNews, now: u64) -> (r: bool)
        ensures
            final(self)@ == dream_heard(old(self)@, news@, now),
            r == dream_done(old(self)@, news@),
    {
        if !self.busy {
            return false;
        }
        match news {
            DreamNews::Nothing => false,
            DreamNews::Lost => {
                self.busy = false;
                false
            },
            DreamNews::Reply(answer) => {
                self.busy = false;
                let done: bool = answer.is_ok();
                let next = match &self.run {
                    DreamRunState::Running { mode, started } => match answer {
                        Ok(summary) => Some(
                            DreamRunState::Done {
                                mode: mode.clone(),
                                took: since(*started, now),
                                summary,
                            },
                        ),
                        Err(error) => Some(DreamRunState::Failed { mode: mode.clone(), error }),
                    },
                    _ => None,
                };
                match next {
                    Some(run) => {
                        self.run = run;
                    },
                    None => {},
                }
                done
            },
        }
    }
}

} // verus!

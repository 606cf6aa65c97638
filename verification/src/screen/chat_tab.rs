//! The chat tab: the conversation.

use crate::app::App;
use crate::chat::{ChatLine, ChatLineView, ChatView, ChatWho, Pending};
use crate::model::AppView;
use crate::screen::bars::{low_half, to_low_half};
use crate::style::{
    framed, heading, no_lines, page, piece, push_line, Color, Flow, Line, Panel, PanelView,
    SpanView, Style,
};
use crate::text::concat3;
use vstd::prelude::*;

verus! {

/// The label of a speaker, and its style.
pub open spec fn speaker(who: ChatWho) -> (Seq<char>, Style) {
    match who {
        ChatWho::User => ("you "@, Style::bold(Color::Info)),
        ChatWho::Kannaka => ("kannaka "@, Style::bold(Color::Accent)),
        ChatWho::System => ("\u{b7} "@, Style::fg(Color::Dim)),
    }
}

/// A line of the conversation as it is shown.
pub open spec fn spoken(l: ChatLineView) -> Seq<SpanView> {
    let (label, style) = speaker(l.who);
    seq![piece(label, style), piece(l.text, Style::fg(Color::Text))]
}

/// The conversation, with an empty line behind each line.
pub open spec fn conversation(lines: Seq<ChatLineView>) -> Seq<Seq<SpanView>>
    decreases lines.len(),
{
    if lines.len() == 0 {
        seq![]
    } else {
        conversation(lines.drop_last()).push(spoken(lines.last())).push(seq![])
    }
}

/// The figure of the spinner at a tick.
pub open spec fn spinner(tick: usize) -> char {
    let phase = tick as int % 4;
    if phase == 0 {
        '\u{2014}'
    } else if phase == 1 {
        '\\'
    } else if phase == 2 {
        '|'
    } else {
        '/'
    }
}

/// The line with the spinner, while an answer is awaited.
pub open spec fn waiting_line(c: ChatView) -> Seq<Seq<SpanView>> {
    if c.pending == Pending::Idle {
        seq![]
    } else {
        seq![
            seq![
                piece(
                    "kannaka "@ + seq![spinner(c.tick)] + " "@,
                    Style::fg(Color::Accent),
                ),
                piece("resonating\u{2026}"@, Style::fg(Color::Dim)),
            ],
        ]
    }
}

/// The chat tab.
pub open spec fn chat_panel(a: AppView) -> PanelView {
    framed(
        heading(
            if a.chat.pending == Pending::Idle {
                " Chat "@
            } else {
                " Chat \u{b7} thinking\u{2026} "@
            },
        ),
        Color::Accent,
        conversation(a.chat.lines) + waiting_line(a.chat),
        Flow::Wrapped { scroll: low_half(a.scroll_offset) as u16 },
    )
}

fn write_spoken(l: &ChatLine) -> (r: Line)
    ensures
        r@ == spoken(l@),
{
    let plain = Style::fg(Color::Text);
    match l.who {
        ChatWho::User => Line::two("you ", Style::bold(Color::Info), l.text.as_str(), plain),
        ChatWho::Kannaka => Line::two(
            "kannaka ",
            Style::bold(Color::Accent),
            l.text.as_str(),
            plain,
        ),
        ChatWho::System => Line::two("\u{b7} ", Style::fg(Color::Dim), l.text.as_str(), plain),
    }
}

fn spinner_at(tick: usize) -> (r: &'static str)
    ensures
        r@ == seq![spinner(tick)],
{
    proof {
        reveal_strlit("\u{2014}");
        reveal_strlit("\\");
        reveal_strlit("|");
        reveal_strlit("/");
        assert("\u{2014}"@ =~= seq!['\u{2014}']);
        assert("\\"@ =~= seq!['\\']);
        assert("|"@ =~= seq!['|']);
        assert("/"@ =~= seq!['/']);
    }
    match tick % 4 {
        0 => "\u{2014}",
        1 => "\\",
        2 => "|",
        _ => "/",
    }
}

/// Writes the chat tab.
pub fn render_chat_tab(app: &App) -> (r: Panel)
    ensures
        r@ == chat_panel(app@),
{
    let ghost all = app@.chat.lines;
    let n: usize = app.chat.lines.len();
    let mut lines = no_lines();
    let mut i: usize = 0;
    assert(all.subrange(0, 0) =~= seq![]);
    while i < n
        invariant
            i <= n,
            n == app.chat.lines@.len(),
            all == app@.chat.lines,
            page(lines@) == conversation(all.subrange(0, i as int)),
        decreases n - i,
    {
        assert(all.subrange(0, i + 1).drop_last() =~= all.subrange(0, i as int));
        push_line(&mut lines, write_spoken(&app.chat.lines[i]));
        push_line(&mut lines, Line::empty());
        i = i + 1;
    }
    assert(all.subrange(0, n as int) =~= all);
    let scroll: u16 = to_low_half(app.scroll_offset);
    if app.chat.pending == Pending::Idle {
        assert(page(lines@) =~= chat_panel(app@).lines);
        Panel::titled(" Chat ", Color::Accent, lines, Flow::Wrapped { scroll })
    } else {
        let text = concat3("kannaka ", spinner_at(app.chat.tick), " ");
        push_line(
            &mut lines,
            Line::two(
                text.as_str(),
                Style::fg(Color::Accent),
                "resonating\u{2026}",
                Style::fg(Color::Dim),
            ),
        );
        assert(page(lines@) =~= chat_panel(app@).lines);
        Panel::titled(
            " Chat \u{b7} thinking\u{2026} ",
            Color::Accent,
            lines,
            Flow::Wrapped { scroll },
        )
    }
}

} // verus!

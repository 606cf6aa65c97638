//! What holds of keys: which of them edit, move, dream, enter or leave.

use crate::dream::DreamRunView;
use crate::effect::{EffectView, Task};
use crate::input::{
    backspaced, byte_len, deleted, moved_left, moved_right, newer, older, typed, InputView,
};
use crate::laws::{back_tab, bare_key};
use crate::laws::polling::both_questions;
use crate::laws::polling::law_readings_are_asked_for;
use crate::model::{
    edited, key_moved, key_pressed, next_tab, previous_tab, still, submitted, AppView, Key, KeyCode,
    KeyMotion, Modifiers,
};
use vstd::prelude::*;

verus! {

/// Only a key that goes down counts.
pub proof fn law_only_presses_count(a: AppView, motion: KeyMotion, key: Key, now: u64)
    ensures
        motion == KeyMotion::Press ==> key_moved(a, motion, key, now) == key_pressed(a, key, now),
        motion != KeyMotion::Press ==> key_moved(a, motion, key, now).app == a && key_moved(
            a,
            motion,
            key,
            now,
        ).work.len() == 0,
{
}

/// A character is typed into the bar wherever something stands in it already,
/// whatever the tab and whatever is held with it, but for control with c;
/// nothing else happens.
pub proof fn law_characters_are_typed(a: AppView, modifiers: Modifiers, c: char, now: u64)
    requires
        !a.show_help,
        a.bar.text.len() > 0,
        modifiers == Modifiers::Control ==> c != 'c',
    ensures
        ({
            let s = key_pressed(a, (Key { modifiers, code: KeyCode::Char(c) }), now);
            s.app == (AppView { bar: typed(a.bar, c), ..a }) && s.work.len() == 0
        }),
{
}

/// Into an empty bar a character is typed too, but for the letters that are
/// keys then, without anything held: q leaves, and on the dreams tab d and l
/// dream.
pub proof fn law_first_character_is_typed(a: AppView, modifiers: Modifiers, c: char, now: u64)
    requires
        !a.show_help,
        a.bar.text.len() == 0,
        modifiers == Modifiers::Control ==> c != 'c',
        modifiers == Modifiers::Bare ==> c != 'q' && c != 'Q',
        modifiers == Modifiers::Bare && a.active_tab == 4 ==> c != 'd' && c != 'D' && c != 'l' && c
            != 'L',
    ensures
        ({
            let s = key_pressed(a, (Key { modifiers, code: KeyCode::Char(c) }), now);
            s.app == (AppView { bar: typed(a.bar, c), ..a }) && s.work.len() == 0
        }),
{
}

/// On the dreams tab, with an empty bar, d dreams deep and l dreams lite,
/// capital or not, unless a dream runs; nothing is typed.
pub proof fn law_dream_keys(a: AppView, c: char, now: u64)
    requires
        !a.show_help,
        a.bar.text.len() == 0,
        a.active_tab == 4,
        c == 'd' || c == 'D' || c == 'l' || c == 'L',
    ensures
        ({
            let s = key_pressed(a, bare_key(KeyCode::Char(c)), now);
            let mode = if c == 'd' || c == 'D' {
                "deep"@
            } else {
                "lite"@
            };
            &&& a.dreamer.busy ==> s.app == a && s.work.len() == 0
            &&& !a.dreamer.busy ==> {
                &&& s.work == seq![
                    EffectView { task: Task::Dream, args: seq!["dream"@, "--mode"@, mode] },
                ]
                &&& s.app.dreamer.busy
                &&& s.app.dreamer.run == (DreamRunView::Running { mode, started: now })
                &&& s.app == (AppView { dreamer: s.app.dreamer, ..a })
            }
        }),
{
}

/// The editing keys edit the bar, each in its own way, and touch nothing else;
/// the paging keys scroll by five lines, never below the bottom.
pub proof fn law_editing_keys(a: AppView, now: u64)
    requires
        !a.show_help,
    ensures
        ({
            let on = |code: KeyCode| key_pressed(a, bare_key(code), now);
            &&& on(KeyCode::Backspace) == still(AppView { bar: backspaced(a.bar), ..a })
            &&& on(KeyCode::Delete) == still(AppView { bar: deleted(a.bar), ..a })
            &&& on(KeyCode::Left) == still(AppView { bar: moved_left(a.bar), ..a })
            &&& on(KeyCode::Right) == still(AppView { bar: moved_right(a.bar), ..a })
            &&& on(KeyCode::Up) == still(AppView { bar: older(a.bar), ..a })
            &&& on(KeyCode::Down) == still(AppView { bar: newer(a.bar), ..a })
            &&& on(KeyCode::Home) == still(
                AppView { bar: InputView { cursor: 0, ..a.bar }, ..a },
            )
            &&& on(KeyCode::End) == still(
                AppView { bar: InputView { cursor: byte_len(a.bar.text) as int, ..a.bar }, ..a },
            )
            &&& on(KeyCode::Other) == still(a)
        }),
{
}

/// A page up scrolls five lines up, a page down five lines down, or to the
/// bottom where there are fewer; nothing else changes.
pub proof fn law_pages_are_five_lines(a: AppView)
    ensures
        edited(a, KeyCode::PageUp) == (AppView {
            scroll_offset: edited(a, KeyCode::PageUp).scroll_offset,
            ..a
        }),
        edited(a, KeyCode::PageDown) == (AppView {
            scroll_offset: edited(a, KeyCode::PageDown).scroll_offset,
            ..a
        }),
        a.scroll_offset + 5 <= usize::MAX ==> edited(a, KeyCode::PageUp).scroll_offset
            == a.scroll_offset + 5,
        a.scroll_offset + 5 > usize::MAX ==> edited(a, KeyCode::PageUp).scroll_offset
            == usize::MAX,
        a.scroll_offset >= 5 ==> edited(a, KeyCode::PageDown).scroll_offset == a.scroll_offset - 5,
        a.scroll_offset < 5 ==> edited(a, KeyCode::PageDown).scroll_offset == 0,
{
}

/// The enter key enters the line, whatever is held with it.
pub proof fn law_enter_enters(a: AppView, modifiers: Modifiers, now: u64)
    requires
        !a.show_help,
    ensures
        key_pressed(a, (Key { modifiers, code: KeyCode::Enter }), now) == submitted(a, now),
{
}

/// The tab keys go one tab on or back, round the ends. The status tab asks for
/// fresh readings as it is entered, the tabs that live off the bus for its
/// stream, the others for nothing.
pub proof fn law_tab_keys_enter_tabs(a: AppView, now: u64)
    requires
        !a.show_help,
        a.active_tab < 6,
    ensures
        ({
            let s = key_pressed(a, bare_key(KeyCode::Tab), now);
            let t = key_pressed(a, back_tab(), now);
            &&& s.app.active_tab == (a.active_tab + 1) % 6
            &&& t.app.active_tab == (a.active_tab + 5) % 6
            &&& s.app.active_tab == 1 && !a.status_pending && !a.observe_pending ==> s.work
                == both_questions()
            &&& t.app.active_tab == 1 && !a.status_pending && !a.observe_pending ==> t.work
                == both_questions()
            &&& 2 <= s.app.active_tab <= 4 && !a.live.child ==> s.work == seq![
                EffectView { task: Task::Bus, args: seq!["swarm"@, "tail"@] },
            ]
            &&& 2 <= t.app.active_tab <= 4 && !a.live.child ==> t.work == seq![
                EffectView { task: Task::Bus, args: seq!["swarm"@, "tail"@] },
            ]
            &&& s.app.active_tab == 0 || s.app.active_tab == 5 ==> s.work.len() == 0
            &&& t.app.active_tab == 0 || t.app.active_tab == 5 ==> t.work.len() == 0
        }),
{
    law_readings_are_asked_for(AppView { active_tab: next_tab(a.active_tab), ..a }, now);
    law_readings_are_asked_for(AppView { active_tab: previous_tab(a.active_tab), ..a }, now);
}

/// No key but those that leave does leave.
pub proof fn law_only_these_keys_leave(a: AppView, key: Key, now: u64)
    requires
        !a.should_quit,
        key_pressed(a, key, now).app.should_quit,
    ensures
        !a.show_help,
        ({
            ||| key == Key { modifiers: Modifiers::Control, code: KeyCode::Char('c') }
            ||| key.code == KeyCode::Enter
            ||| a.bar.text.len() == 0 && (key == bare_key(KeyCode::Char('q')) || key == bare_key(
                KeyCode::Char('Q'),
            ) || key == bare_key(KeyCode::Esc))
        }),
{
}

} // verus!
